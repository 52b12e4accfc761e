//! Comparison strategies: a byte-exact one and a line-oriented text one, the
//! failure each reports, and the choice of strategy from a file's extension.
use vstd::prelude::*;
use vstd::string::*;
use vstd::utf8::*;

use crate::paths::{extension, extension_of};
use crate::text::{contains, decimal, push_decimal, same_text};

verus! {

/// How a staged artifact is compared against its golden copy.
#[derive(Clone, Copy, Debug, PartialEq, Eq, Structural)]
pub enum Differ {
    /// Line-oriented comparison of the files read as text.
    Text,
    /// Byte-exact comparison.
    Binary,
}

/// Why two artifacts were found to differ.
#[derive(Debug)]
pub enum Mismatch {
    /// One of the two files could not be read as bytes.
    Unreadable,
    /// The two files have different lengths in bytes.
    Sizes { old_len: usize, new_len: usize },
    /// The files have equal length and first differ at `byte` (counted from one).
    Bytes { byte: usize },
    /// The texts differ; `diff` is a rendering of their line-level differences.
    Text { old: String, new: String, diff: String },
}

/// `a` and `b` agree before index `k` and differ at index `k`.
pub open spec fn first_difference_at(a: Seq<u8>, b: Seq<u8>, k: int) -> bool {
    &&& 0 <= k < a.len()
    &&& k < b.len()
    &&& a[k] != b[k]
    &&& forall|j: int| 0 <= j < k ==> a[j] == b[j]
}

/// What a file holds when read as text: its characters if it is valid UTF-8,
/// and the empty text if it is not, or could not be read at all.
pub open spec fn text_of(contents: Option<Seq<u8>>) -> Seq<char> {
    match contents {
        Some(b) => if valid_utf8(b) { decode_utf8(b) } else { Seq::empty() },
        None => Seq::empty(),
    }
}

/// The bytes of an optional buffer, as a sequence.
pub open spec fn bytes_of(contents: Option<Vec<u8>>) -> Option<Seq<u8>> {
    match contents {
        Some(v) => Some(v@),
        None => None,
    }
}

/// Whether the comparison `differ` finds the old and new contents equivalent.
pub open spec fn agree(differ: Differ, old: Option<Seq<u8>>, new: Option<Seq<u8>>) -> bool {
    match differ {
        Differ::Text => text_of(old) == text_of(new),
        Differ::Binary => old is Some && new is Some && old->0 == new->0,
    }
}

impl Mismatch {
    /// The failure text shown for this mismatch; `label` names the golden file.
    pub open spec fn report(self, label: Seq<char>) -> Seq<char> {
        match self {
            Mismatch::Unreadable => label + ": file could not be read"@,
            Mismatch::Sizes { old_len, new_len } =>
                "File sizes differ: Old file is "@ + decimal(old_len as nat) + " bytes, new file is "@
                    + decimal(new_len as nat) + " bytes"@,
            Mismatch::Bytes { byte } => label + ": Files differ at byte "@ + decimal(byte as nat),
            Mismatch::Text { old, new, diff } =>
                label + ": contents differ\n old: "@ + old@ + "\n new: "@ + new@ + "\n\n"@ + diff@,
        }
    }

    /// Whether this is the mismatch that `differ` reports for the given contents.
    pub open spec fn explains(self, differ: Differ, old: Option<Seq<u8>>, new: Option<Seq<u8>>) -> bool {
        match differ {
            Differ::Text => self matches Mismatch::Text { old: o, new: n, .. } && o@ == text_of(old)
                && n@ == text_of(new),
            Differ::Binary => if old is None || new is None {
                self is Unreadable
            } else {
                binary_mismatch(self, old->0, new->0)
            },
        }
    }

    /// Renders the failure text for this mismatch; `label` names the golden file.
    pub fn message(&self, label: &str) -> (r: String)
        ensures
            r@ == self.report(label@),
    {
        match self {
            Mismatch::Unreadable => {
                let mut s = String::from_str(label);
                s.append(": file could not be read");
                s
            },
            Mismatch::Sizes { old_len, new_len } => {
                let mut s = String::from_str("File sizes differ: Old file is ");
                push_decimal(&mut s, *old_len);
                s.append(" bytes, new file is ");
                push_decimal(&mut s, *new_len);
                s.append(" bytes");
                s
            },
            Mismatch::Bytes { byte } => {
                let mut s = String::from_str(label);
                s.append(": Files differ at byte ");
                push_decimal(&mut s, *byte);
                s
            },
            Mismatch::Text { old, new, diff } => {
                let mut s = String::from_str(label);
                s.append(": contents differ\n old: ");
                s.append(old.as_str());
                s.append("\n new: ");
                s.append(new.as_str());
                s.append("\n\n");
                s.append(diff.as_str());
                s
            },
        }
    }
}

/// The mismatch that the byte-exact comparison reports for two differing contents.
pub open spec fn binary_mismatch(m: Mismatch, old: Seq<u8>, new: Seq<u8>) -> bool {
    if old.len() != new.len() {
        m == Mismatch::Sizes { old_len: old.len() as usize, new_len: new.len() as usize }
    } else {
        m matches Mismatch::Bytes { byte } && first_difference_at(old, new, byte - 1)
    }
}

/// Compares two contents byte for byte: first their lengths, then each byte
/// in turn, reporting the first offset at which they differ.
pub fn binary_diff(old: &[u8], new: &[u8]) -> (r: Result<(), Mismatch>)
    ensures
        r is Ok <==> old@ == new@,
        r matches Err(m) ==> binary_mismatch(m, old@, new@),
{
    if old.len() != new.len() {
        return Err(Mismatch::Sizes { old_len: old.len(), new_len: new.len() });
    }
    let n = old.len();
    let mut i: usize = 0;
    while i < n
        invariant
            n == old@.len(),
            n == new@.len(),
            i <= n,
            forall|j: int| 0 <= j < i ==> old@[j] == new@[j],
        decreases n - i,
    {
        if old[i] != new[i] {
            return Err(Mismatch::Bytes { byte: i + 1 });
        }
        i = i + 1;
    }
    assert(old@ =~= new@);
    Ok(())
}

/// Relies on `std::str::from_utf8`: it accepts exactly the valid UTF-8
/// sequences, and the text it gives back has those bytes as its encoding.
#[verifier::external_body]
fn decode_text(b: &[u8]) -> (r: Option<String>)
    ensures
        r is Some <==> valid_utf8(b@),
        r matches Some(s) ==> s@ == decode_utf8(b@),
{
    std::str::from_utf8(b).ok().map(|s| s.to_string())
}

/// Relies on the `Display` rendering of `similar_asserts::SimpleDiff`, a
/// line-level diff of the two texts. Its coloring and context size depend on
/// the environment, so nothing is stated of it.
#[verifier::external_body]
fn line_diff(old: &str, new: &str) -> String {
    format!("{}", similar_asserts::SimpleDiff::from_str(old, new, "old", "new"))
}

/// Compares two texts; on a difference the failure carries both texts and a
/// line-level diff of them.
pub fn text_diff(old: &str, new: &str) -> (r: Result<(), Mismatch>)
    ensures
        r is Ok <==> old@ == new@,
        r matches Err(m) ==> (m matches Mismatch::Text { old: o, new: n, .. } && o@ == old@
            && n@ == new@),
{
    if same_text(old, new) {
        Ok(())
    } else {
        let diff = line_diff(old, new);
        Err(Mismatch::Text { old: String::from_str(old), new: String::from_str(new), diff })
    }
}

/// The text of an optional file content, read permissively: contents that are
/// absent or not valid UTF-8 read as the empty text.
pub fn read_text(contents: &Option<Vec<u8>>) -> (r: String)
    ensures
        r@ == text_of(bytes_of(*contents)),
{
    match contents {
        Some(b) => match decode_text(b.as_slice()) {
            Some(s) => s,
            None => String::new(),
        },
        None => String::new(),
    }
}

/// Compares the old (golden) and new (staged) contents of one artifact with
/// `differ`. `None` stands for a file that could not be read.
pub fn compare(differ: Differ, old: &Option<Vec<u8>>, new: &Option<Vec<u8>>) -> (r: Result<(), Mismatch>)
    ensures
        r is Ok <==> agree(differ, bytes_of(*old), bytes_of(*new)),
        r matches Err(m) ==> m.explains(differ, bytes_of(*old), bytes_of(*new)),
{
    match differ {
        Differ::Text => {
            let o = read_text(old);
            let n = read_text(new);
            text_diff(o.as_str(), n.as_str())
        },
        Differ::Binary => match (old, new) {
            (Some(o), Some(n)) => binary_diff(o.as_slice(), n.as_slice()),
            _ => Err(Mismatch::Unreadable),
        },
    }
}

} // verus!

verus! {

/// The extensions whose files are compared byte for byte by default.
pub open spec fn binary_extension(e: Seq<char>) -> bool {
    e == "bin"@ || e == "exe"@ || e == "gz"@ || e == "pcap"@ || e == "tar"@ || e == "zip"@
}

/// The default comparison for a file with the given extension.
pub open spec fn differ_for(ext: Option<Seq<char>>) -> Differ {
    match ext {
        Some(e) => if binary_extension(e) { Differ::Binary } else { Differ::Text },
        None => Differ::Text,
    }
}

/// Picks the default comparison for an extension (compared case-sensitively):
/// binary for archives, executables, packet captures and `.bin` files, text
/// for anything else and for no extension at all.
pub fn differ_for_extension(ext: Option<&str>) -> (r: Differ)
    ensures
        r == differ_for(match ext { Some(e) => Some(e@), None => None }),
{
    match ext {
        Some(e) => {
            if same_text(e, "bin") || same_text(e, "exe") || same_text(e, "gz")
                || same_text(e, "pcap") || same_text(e, "tar") || same_text(e, "zip") {
                Differ::Binary
            } else {
                Differ::Text
            }
        },
        None => Differ::Text,
    }
}

/// The default comparison for a path, chosen by the extension of its file name.
pub fn get_differ_for_path(path: &str) -> (r: Differ)
    ensures
        r == differ_for(extension_of(path@)),
{
    match extension(path) {
        Some(e) => differ_for_extension(Some(e.as_str())),
        None => differ_for_extension(None),
    }
}

} // verus!

verus! {

/// Two files with the same bytes always agree, whatever the comparison.
pub proof fn identical_contents_agree(differ: Differ, contents: Seq<u8>)
    ensures
        agree(differ, Some(contents), Some(contents)),
{
}

/// Two valid UTF-8 texts with different bytes never agree under the text
/// comparison, and the failure reported for them contains both texts.
pub proof fn differing_texts_are_reported(old: Seq<u8>, new: Seq<u8>, m: Mismatch, label: Seq<char>)
    requires
        valid_utf8(old),
        valid_utf8(new),
        old != new,
        m.explains(Differ::Text, Some(old), Some(new)),
    ensures
        !agree(Differ::Text, Some(old), Some(new)),
        contains(m.report(label), decode_utf8(old)),
        contains(m.report(label), decode_utf8(new)),
{
    decode_utf8_encode_utf8(old);
    decode_utf8_encode_utf8(new);
    if let Mismatch::Text { old: o, new: n, diff } = m {
        let r = m.report(label);
        let before_old = label + ": contents differ\n old: "@;
        let before_new = before_old + o@ + "\n new: "@;
        let after_new = "\n\n"@ + diff@;
        assert(r =~= before_old + o@ + ("\n new: "@ + n@ + after_new));
        assert(r.subrange(before_old.len() as int, (before_old.len() + o@.len()) as int) =~= o@);
        assert(r =~= before_new + n@ + after_new);
        assert(r.subrange(before_new.len() as int, (before_new.len() + n@.len()) as int) =~= n@);
    }
}

/// When two files differ in length, the failure states both lengths exactly.
/// (Contents held in memory have lengths that fit in `usize`.)
pub proof fn size_difference_is_reported(old: Seq<u8>, new: Seq<u8>, m: Mismatch, label: Seq<char>)
    requires
        old.len() <= usize::MAX,
        new.len() <= usize::MAX,
        old.len() != new.len(),
        m.explains(Differ::Binary, Some(old), Some(new)),
    ensures
        !agree(Differ::Binary, Some(old), Some(new)),
        m.report(label) == "File sizes differ: Old file is "@ + decimal(old.len()) + " bytes, new file is "@
            + decimal(new.len()) + " bytes"@,
{
}

/// When two files of equal length first differ at byte `k` (counted from
/// one), the failure names that byte.
pub proof fn first_differing_byte_is_reported(old: Seq<u8>, new: Seq<u8>, k: nat, m: Mismatch, label: Seq<char>)
    requires
        old.len() == new.len(),
        1 <= k,
        first_difference_at(old, new, k - 1),
        m.explains(Differ::Binary, Some(old), Some(new)),
    ensures
        !agree(Differ::Binary, Some(old), Some(new)),
        m.report(label) == label + ": Files differ at byte "@ + decimal(k),
{
    if let Mismatch::Bytes { byte } = m {
        let b = byte as int;
        if b < k as int {
            assert(old[b - 1] == new[b - 1]);
        }
        if b > k as int {
            assert(old[k - 1] == new[k - 1]);
        }
        assert(b == k);
    }
}

} // verus!
