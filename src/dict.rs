//! Read-only dictionaries handed over by the native side: an ordered table
//! of key/value byte strings and a flag word.
//!
//! Entries need not be valid UTF-8. The raw view yields every entry; the
//! text views yield only the entries whose key and value are both valid
//! UTF-8, decoded, in table order.
use vstd::prelude::*;
use vstd::string::{StringExecFns, StringSliceAdditionalSpecFns};
use vstd::utf8::*;

verus! {

broadcast use group_utf8_lib;

/// The one flag the native side defines: the keys are sorted.
pub const FLAG_SORTED: u32 = 1;

/// The flag word of a dictionary, restricted to the known flags.
#[derive(Debug, Copy, Clone, PartialEq, Eq, Structural)]
pub struct Flags {
    bits: u32,
}

impl Flags {
    pub closed spec fn spec_bits(self) -> u32 {
        self.bits
    }

    /// No flag set.
    pub fn empty() -> (r: Flags)
        ensures
            r.spec_bits() == 0,
    {
        Flags { bits: 0 }
    }

    /// The "sorted" flag alone.
    pub fn sorted() -> (r: Flags)
        ensures
            r.spec_bits() == FLAG_SORTED,
    {
        Flags { bits: FLAG_SORTED }
    }

    /// Keeps the known flags of `bits` and drops the others.
    pub fn from_bits_truncate(bits: u32) -> (r: Flags)
        ensures
            r.spec_bits() == bits & FLAG_SORTED,
    {
        Flags { bits: bits & FLAG_SORTED }
    }

    pub fn bits(&self) -> (r: u32)
        ensures
            r == self.spec_bits(),
    {
        self.bits
    }

    /// Whether every flag of `other` is set in `self`.
    pub fn contains(&self, other: Flags) -> (r: bool)
        ensures
            r == (self.spec_bits() & other.spec_bits() == other.spec_bits()),
    {
        self.bits & other.bits == other.bits
    }
}

/// A key/value entry whose key and value are both valid UTF-8.
pub open spec fn is_text_item(item: (Seq<u8>, Seq<u8>)) -> bool {
    valid_utf8(item.0) && valid_utf8(item.1)
}

/// The text entries of `items`, decoded, in order.
pub open spec fn text_items(items: Seq<(Seq<u8>, Seq<u8>)>) -> Seq<(Seq<char>, Seq<char>)>
    decreases items.len(),
{
    if items.len() == 0 {
        seq![]
    } else {
        let rest = text_items(items.drop_last());
        let last = items.last();
        if is_text_item(last) {
            rest.push((decode_utf8(last.0), decode_utf8(last.1)))
        } else {
            rest
        }
    }
}

/// The keys that are valid UTF-8, decoded, in order.
pub open spec fn text_keys(items: Seq<(Seq<u8>, Seq<u8>)>) -> Seq<Seq<char>>
    decreases items.len(),
{
    if items.len() == 0 {
        seq![]
    } else {
        let rest = text_keys(items.drop_last());
        if valid_utf8(items.last().0) {
            rest.push(decode_utf8(items.last().0))
        } else {
            rest
        }
    }
}

/// The values that are valid UTF-8, decoded, in order.
pub open spec fn text_values(items: Seq<(Seq<u8>, Seq<u8>)>) -> Seq<Seq<char>>
    decreases items.len(),
{
    if items.len() == 0 {
        seq![]
    } else {
        let rest = text_values(items.drop_last());
        if valid_utf8(items.last().1) {
            rest.push(decode_utf8(items.last().1))
        } else {
            rest
        }
    }
}

/// The view of a sequence of borrowed text pairs.
pub open spec fn str_pairs_view(s: Seq<(&str, &str)>) -> Seq<(Seq<char>, Seq<char>)> {
    s.map_values(|p: (&str, &str)| (p.0@, p.1@))
}

/// The view of a sequence of borrowed texts.
pub open spec fn strs_view(s: Seq<&str>) -> Seq<Seq<char>> {
    s.map_values(|t: &str| t@)
}

/// The value of the first pair of `pairs` whose key is `key`.
pub open spec fn first_value(pairs: Seq<(Seq<char>, Seq<char>)>, key: Seq<char>) -> Option<Seq<char>>
    decreases pairs.len(),
{
    if pairs.len() == 0 {
        None
    } else if pairs[0].0 == key {
        Some(pairs[0].1)
    } else {
        first_value(pairs.drop_first(), key)
    }
}

/// The escaped form of one byte, as `u8::escape_ascii` documents it: tab,
/// carriage return, line feed, quotes and backslash get a backslash escape,
/// the printable range `0x20..=0x7e` stands for itself, and every other byte
/// becomes `\x` and two lowercase hex digits.
pub open spec fn escape_byte(b: u8) -> Seq<char> {
    if b == 0x09 {
        seq!['\\', 't']
    } else if b == 0x0d {
        seq!['\\', 'r']
    } else if b == 0x0a {
        seq!['\\', 'n']
    } else if b == 0x27 {
        seq!['\\', '\'']
    } else if b == 0x22 {
        seq!['\\', '"']
    } else if b == 0x5c {
        seq!['\\', '\\']
    } else if 0x20 <= b <= 0x7e {
        seq![b as char]
    } else {
        seq!['\\', 'x', hex_digit(b / 16), hex_digit(b % 16)]
    }
}

/// A lowercase hex digit.
pub open spec fn hex_digit(d: u8) -> char {
    if d < 10 {
        (d + 0x30) as char
    } else {
        (d - 10 + 0x61) as char
    }
}

/// The escaped form of a byte string: each byte escaped in turn.
pub open spec fn escape_bytes_spec(b: Seq<u8>) -> Seq<char>
    decreases b.len(),
{
    if b.len() == 0 {
        seq![]
    } else {
        escape_bytes_spec(b.drop_last()) + escape_byte(b.last())
    }
}

/// A byte string in debug form: escaped, between double quotes.
pub open spec fn quoted(b: Seq<u8>) -> Seq<char> {
    seq!['"'] + escape_bytes_spec(b) + seq!['"']
}

/// One entry in debug form: `"key": "value"`.
pub open spec fn entry_text(item: (Seq<u8>, Seq<u8>)) -> Seq<char> {
    quoted(item.0) + seq![':', ' '] + quoted(item.1)
}

/// The entries in debug form, separated by `", "`.
pub open spec fn entries_text(items: Seq<(Seq<u8>, Seq<u8>)>) -> Seq<char>
    decreases items.len(),
{
    if items.len() == 0 {
        seq![]
    } else if items.len() == 1 {
        entry_text(items[0])
    } else {
        entries_text(items.drop_last()) + seq![',', ' '] + entry_text(items.last())
    }
}

/// A dictionary in debug form, as a map: `{"k1": "v1", "k2": "v2"}`.
pub open spec fn debug_text(items: Seq<(Seq<u8>, Seq<u8>)>) -> Seq<char> {
    seq!['{'] + entries_text(items) + seq!['}']
}

/// A dictionary built over `n` entries shows `n` entries in its raw view,
/// and is empty exactly when `n` is zero.
pub proof fn lemma_entry_count(items: Seq<(Vec<u8>, Vec<u8>)>, d: ForeignDict)
    requires
        d.raw_items() == items.map_values(|p: (Vec<u8>, Vec<u8>)| (p.0@, p.1@)),
    ensures
        d.raw_items().len() == items.len(),
        (d.raw_items().len() == 0) == (items.len() == 0),
{
}

/// When every entry is valid UTF-8, the text view holds every entry,
/// decoded, in table order.
pub proof fn lemma_all_text_items(items: Seq<(Seq<u8>, Seq<u8>)>)
    requires
        forall|i: int| 0 <= i < items.len() ==> is_text_item(#[trigger] items[i]),
    ensures
        text_items(items) == items.map_values(
            |p: (Seq<u8>, Seq<u8>)| (decode_utf8(p.0), decode_utf8(p.1)),
        ),
    decreases items.len(),
{
    if items.len() > 0 {
        let rest = items.drop_last();
        assert forall|i: int| 0 <= i < rest.len() implies is_text_item(#[trigger] rest[i]) by {
            assert(rest[i] == items[i]);
        }
        lemma_all_text_items(rest);
        assert(is_text_item(items[items.len() - 1]));
        assert(text_items(items) =~= items.map_values(
            |p: (Seq<u8>, Seq<u8>)| (decode_utf8(p.0), decode_utf8(p.1)),
        ));
    }
}

/// Where several pairs share a key, the lookup gives the value of the
/// first of them.
pub proof fn lemma_first_value_of_duplicates(
    pairs: Seq<(Seq<char>, Seq<char>)>,
    key: Seq<char>,
    j: int,
)
    requires
        0 <= j < pairs.len(),
        pairs[j].0 == key,
        forall|i: int| 0 <= i < j ==> (#[trigger] pairs[i]).0 != key,
    ensures
        first_value(pairs, key) == Some(pairs[j].1),
    decreases j,
{
    if j > 0 {
        let rest = pairs.drop_first();
        assert forall|i: int| 0 <= i < j - 1 implies (#[trigger] rest[i]).0 != key by {
            assert(rest[i] == pairs[i + 1]);
        }
        assert(pairs[0].0 != key);
        lemma_first_value_of_duplicates(rest, key, j - 1);
    }
}

/// Relies on `<[u8]>::escape_ascii`, which escapes each byte as
/// `u8::escape_ascii` documents.
#[verifier::external_body]
fn escape_bytes(bytes: &[u8]) -> (r: String)
    ensures
        r@ == escape_bytes_spec(bytes@),
{
    bytes.escape_ascii().to_string()
}

/// Relies on `std::str::from_utf8`: it accepts exactly the valid UTF-8
/// byte strings and then borrows them unchanged as text.
#[verifier::external_body]
fn utf8_text<'a>(bytes: &'a [u8]) -> (r: Option<&'a str>)
    ensures
        r is Some <==> valid_utf8(bytes@),
        r is Some ==> r->0.spec_bytes() == bytes@,
{
    std::str::from_utf8(bytes).ok()
}

/// Whether two byte strings are equal.
fn bytes_equal(a: &[u8], b: &[u8]) -> (r: bool)
    ensures
        r == (a@ == b@),
{
    if a.len() != b.len() {
        return false;
    }
    let mut i: usize = 0;
    while i < a.len()
        invariant
            a@.len() == b@.len(),
            0 <= i <= a@.len(),
            forall|j: int| 0 <= j < i ==> a@[j] == b@[j],
        decreases a@.len() - i,
    {
        if a[i] != b[i] {
            return false;
        }
        i = i + 1;
    }
    assert(a@ =~= b@);
    true
}

/// Whether two texts are equal, compared through their UTF-8 encodings.
pub(crate) fn str_equal(a: &str, b: &str) -> (r: bool)
    ensures
        r == (a@ == b@),
{
    let r = bytes_equal(a.as_bytes(), b.as_bytes());
    proof {
        assert(decode_utf8(encode_utf8(a@)) == a@);
        assert(decode_utf8(encode_utf8(b@)) == b@);
    }
    r
}

/// A read-only view of a native key/value table.
pub struct ForeignDict {
    items: Vec<(Vec<u8>, Vec<u8>)>,
    flags: u32,
}

impl ForeignDict {
    /// The entries as byte strings, in table order.
    pub closed spec fn raw_items(&self) -> Seq<(Seq<u8>, Seq<u8>)> {
        self.items@.map_values(|p: (Vec<u8>, Vec<u8>)| (p.0@, p.1@))
    }

    /// The raw flag word.
    pub closed spec fn raw_flags(&self) -> u32 {
        self.flags
    }

    /// A dictionary over `items`, in the given order, with the flag word
    /// `flags`.
    pub fn from_items(items: Vec<(Vec<u8>, Vec<u8>)>, flags: u32) -> (r: ForeignDict)
        ensures
            r.raw_items() == items@.map_values(|p: (Vec<u8>, Vec<u8>)| (p.0@, p.1@)),
            r.raw_flags() == flags,
    {
        ForeignDict { items, flags }
    }

    /// The number of entries, text or not.
    pub fn len(&self) -> (r: usize)
        ensures
            r == self.raw_items().len(),
    {
        self.items.len()
    }

    pub fn is_empty(&self) -> (r: bool)
        ensures
            r == (self.raw_items().len() == 0),
    {
        self.items.len() == 0
    }

    /// The known flags of the flag word.
    pub fn flags(&self) -> (r: Flags)
        ensures
            r.spec_bits() == self.raw_flags() & FLAG_SORTED,
    {
        Flags::from_bits_truncate(self.flags)
    }

    /// Every entry as a pair of byte strings, in table order.
    pub fn iter_cstr(&self) -> (r: Vec<(&[u8], &[u8])>)
        ensures
            r@.map_values(|p: (&[u8], &[u8])| (p.0@, p.1@)) == self.raw_items(),
    {
        let mut out: Vec<(&[u8], &[u8])> = Vec::new();
        let mut i: usize = 0;
        while i < self.items.len()
            invariant
                0 <= i <= self.items@.len(),
                out@.len() == i,
                forall|j: int|
                    0 <= j < i ==> (#[trigger] out@[j]).0@ == self.items@[j].0@ && out@[j].1@
                        == self.items@[j].1@,
            decreases self.items@.len() - i,
        {
            let item = &self.items[i];
            out.push((item.0.as_slice(), item.1.as_slice()));
            i = i + 1;
        }
        assert(out@.map_values(|p: (&[u8], &[u8])| (p.0@, p.1@)) =~= self.raw_items());
        out
    }

    /// The entries whose key and value are both valid UTF-8, decoded, in
    /// table order.
    pub fn iter(&self) -> (r: Vec<(&str, &str)>)
        ensures
            str_pairs_view(r@) == text_items(self.raw_items()),
    {
        let mut out: Vec<(&str, &str)> = Vec::new();
        let mut i: usize = 0;
        while i < self.items.len()
            invariant
                0 <= i <= self.items@.len(),
                str_pairs_view(out@) == text_items(self.raw_items().take(i as int)),
            decreases self.items@.len() - i,
        {
            let item = &self.items[i];
            let k = utf8_text(item.0.as_slice());
            let v = utf8_text(item.1.as_slice());
            proof {
                assert(self.raw_items().take(i + 1).drop_last() =~= self.raw_items().take(
                    i as int,
                ));
            }
            match (k, v) {
                (Some(k), Some(v)) => {
                    proof {
                        assert(decode_utf8(encode_utf8(k@)) == k@);
                        assert(decode_utf8(encode_utf8(v@)) == v@);
                    }
                    out.push((k, v));
                    assert(str_pairs_view(out@) =~= text_items(self.raw_items().take(i + 1)));
                },
                _ => {},
            }
            i = i + 1;
        }
        assert(self.raw_items().take(self.items@.len() as int) =~= self.raw_items());
        out
    }

    /// The keys that are valid UTF-8, decoded, in table order.
    pub fn keys(&self) -> (r: Vec<&str>)
        ensures
            strs_view(r@) == text_keys(self.raw_items()),
    {
        let mut out: Vec<&str> = Vec::new();
        let mut i: usize = 0;
        while i < self.items.len()
            invariant
                0 <= i <= self.items@.len(),
                strs_view(out@) == text_keys(self.raw_items().take(i as int)),
            decreases self.items@.len() - i,
        {
            let k = utf8_text(self.items[i].0.as_slice());
            proof {
                assert(self.raw_items().take(i + 1).drop_last() =~= self.raw_items().take(
                    i as int,
                ));
            }
            if let Some(k) = k {
                proof {
                    assert(decode_utf8(encode_utf8(k@)) == k@);
                }
                out.push(k);
                assert(strs_view(out@) =~= text_keys(self.raw_items().take(i + 1)));
            }
            i = i + 1;
        }
        assert(self.raw_items().take(self.items@.len() as int) =~= self.raw_items());
        out
    }

    /// The values that are valid UTF-8, decoded, in table order.
    pub fn values(&self) -> (r: Vec<&str>)
        ensures
            strs_view(r@) == text_values(self.raw_items()),
    {
        let mut out: Vec<&str> = Vec::new();
        let mut i: usize = 0;
        while i < self.items.len()
            invariant
                0 <= i <= self.items@.len(),
                strs_view(out@) == text_values(self.raw_items().take(i as int)),
            decreases self.items@.len() - i,
        {
            let v = utf8_text(self.items[i].1.as_slice());
            proof {
                assert(self.raw_items().take(i + 1).drop_last() =~= self.raw_items().take(
                    i as int,
                ));
            }
            if let Some(v) = v {
                proof {
                    assert(decode_utf8(encode_utf8(v@)) == v@);
                }
                out.push(v);
                assert(strs_view(out@) =~= text_values(self.raw_items().take(i + 1)));
            }
            i = i + 1;
        }
        assert(self.raw_items().take(self.items@.len() as int) =~= self.raw_items());
        out
    }

    /// The value of the first text entry whose key is `key`.
    pub fn get(&self, key: &str) -> (r: Option<&str>)
        ensures
            r matches Some(v) ==> first_value(text_items(self.raw_items()), key@) == Some(v@),
            r is None ==> first_value(text_items(self.raw_items()), key@) is None,
    {
        let pairs = self.iter();
        let ghost all = str_pairs_view(pairs@);
        let mut i: usize = 0;
        assert(all.subrange(0, all.len() as int) =~= all);
        while i < pairs.len()
            invariant
                0 <= i <= pairs@.len(),
                all == str_pairs_view(pairs@),
                all == text_items(self.raw_items()),
                first_value(all, key@) == first_value(all.subrange(i as int, all.len() as int), key@),
            decreases pairs@.len() - i,
        {
            let (k, v) = pairs[i];
            proof {
                let rest = all.subrange(i as int, all.len() as int);
                assert(rest[0] == all[i as int]);
                assert(rest.drop_first() =~= all.subrange(i + 1, all.len() as int));
            }
            if str_equal(k, key) {
                proof {
                    let rest = all.subrange(i as int, all.len() as int);
                    assert(all[i as int] == (k@, v@));
                    assert(first_value(rest, key@) == Some(v@));
                }
                return Some(v);
            }
            i = i + 1;
        }
        None
    }

    /// The dictionary in debug form, as a map of its entries in table order:
    /// `{"k1": "v1", "k2": "v2"}`, each byte string escaped.
    pub fn debug_string(&self) -> (r: String)
        ensures
            r@ == debug_text(self.raw_items()),
    {
        let mut out = String::from_str("{");
        proof {
            reveal_strlit("{");
        }
        let mut i: usize = 0;
        while i < self.items.len()
            invariant
                0 <= i <= self.items@.len(),
                out@ == seq!['{'] + entries_text(self.raw_items().take(i as int)),
            decreases self.items@.len() - i,
        {
            let item = &self.items[i];
            proof {
                assert(self.raw_items().take(i + 1).drop_last() =~= self.raw_items().take(
                    i as int,
                ));
            }
            proof {
                reveal_strlit("\"");
                reveal_strlit("\": \"");
                reveal_strlit(", ");
            }
            let ghost before = out@;
            if i > 0 {
                out.append(", ");
            }
            let ghost sep = out@;
            out.append("\"");
            let k = escape_bytes(item.0.as_slice());
            out.append(k.as_str());
            out.append("\": \"");
            let v = escape_bytes(item.1.as_slice());
            out.append(v.as_str());
            out.append("\"");
            proof {
                let t = self.raw_items().take(i + 1);
                assert(t.last() == (item.0@, item.1@));
                let e = entry_text((item.0@, item.1@));
                assert(out@ =~= sep + e);
                if i == 0 {
                    assert(t.len() == 1);
                    assert(t[0] == t.last());
                    assert(entries_text(t) == e);
                    assert(sep == seq!['{']);
                } else {
                    assert(entries_text(t) == entries_text(t.drop_last()) + seq![',', ' '] + e);
                    assert(sep =~= before + seq![',', ' ']);
                }
                assert(out@ =~= seq!['{'] + entries_text(t));
            }
            i = i + 1;
        }
        out.append("}");
        proof {
            reveal_strlit("}");
        }
        assert(self.raw_items().take(self.items@.len() as int) =~= self.raw_items());
        assert(out@ =~= debug_text(self.raw_items()));
        out
    }
}

} // verus!
