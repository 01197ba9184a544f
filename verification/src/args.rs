//! What the command line gives: tags to filter by, and regions to visit.

use vstd::prelude::*;
use vstd::string::*;
use crate::text::opt_text;

verus! {

/// A tag on the command line that is not written as `key=value`.
#[derive(Debug, Clone, Copy, PartialEq, Eq, Structural)]
pub struct InvalidTag;

impl InvalidTag {
    /// What the user is told.
    pub fn message(&self) -> (r: &'static str)
        ensures
            r@ == "Invalid format: should be key=value"@,
    {
        "Invalid format: should be key=value"
    }
}

/// Whether `text` is `key`, an equals sign and `value`, with no equals sign
/// in `key`: the split of a text at its first equals sign.
pub open spec fn splits_into(text: Seq<char>, key: Seq<char>, value: Seq<char>) -> bool {
    &&& text == key + seq!['='] + value
    &&& !key.contains('=')
}

/// The key and the value of a tag written as `key=value`, split at the first
/// equals sign. A text without an equals sign is not a tag.
pub fn parse_tag(text: &str) -> (r: Result<(String, String), InvalidTag>)
    ensures
        r is Ok <==> text@.contains('='),
        r matches Ok(tag) ==> splits_into(text@, tag.0@, tag.1@),
{
    let n = text.unicode_len();
    let mut i: usize = 0;
    while i < n
        invariant
            n == text@.len(),
            i <= n,
            forall|j: int| 0 <= j < i ==> text@[j] != '=',
        decreases n - i,
    {
        if text.get_char(i) == '=' {
            let key = text.substring_char(0, i);
            let value = text.substring_char(i + 1, n);
            assert(text@ =~= key@ + seq!['='] + value@);
            return Ok((key.to_owned(), value.to_owned()));
        }
        i += 1;
    }
    Err(InvalidTag)
}

/// The names of the regions that have one, in their order.
pub fn region_names(regions: Vec<Option<String>>) -> (names: Vec<String>)
    ensures
        names.deep_view() == regions@.filter_map(|region: Option<String>| opt_text(region)),
{
    let ghost pick = |region: Option<String>| opt_text(region);
    let mut names: Vec<String> = Vec::new();
    let mut i: usize = 0;
    assert(regions@.take(0) =~= Seq::empty());
    assert(names.deep_view() =~= Seq::empty());
    while i < regions.len()
        invariant
            i <= regions.len(),
            pick == (|region: Option<String>| opt_text(region)),
            names.deep_view() == regions@.take(i as int).filter_map(pick),
        decreases regions.len() - i,
    {
        let ghost before = names.deep_view();
        proof {
            regions@.lemma_filter_map_take_succ(pick, i as int);
        }
        match &regions[i] {
            Some(name) => {
                names.push(name.clone());
                assert(names.deep_view() =~= before + seq![name@]);
            },
            None => {},
        }
        i += 1;
    }
    assert(regions@.take(regions.len() as int) =~= regions@);
    names
}

/// A text splits at its first equals sign in one way only.
pub proof fn lemma_split_is_unique(
    text: Seq<char>,
    key: Seq<char>,
    value: Seq<char>,
    other_key: Seq<char>,
    other_value: Seq<char>,
)
    requires
        splits_into(text, key, value),
        splits_into(text, other_key, other_value),
    ensures
        key == other_key,
        value == other_value,
{
    let a = key + seq!['='] + value;
    let b = other_key + seq!['='] + other_value;
    if key.len() < other_key.len() {
        assert(a[key.len() as int] == '=');
        assert(b[key.len() as int] == other_key[key.len() as int]);
        assert(other_key.contains(other_key[key.len() as int]));
    } else if other_key.len() < key.len() {
        assert(b[other_key.len() as int] == '=');
        assert(a[other_key.len() as int] == key[other_key.len() as int]);
        assert(key.contains(key[other_key.len() as int]));
    } else {
        assert forall|i: int| 0 <= i < key.len() implies key[i] == other_key[i] by {
            assert(a[i] == key[i]);
            assert(b[i] == other_key[i]);
        }
        assert(key =~= other_key);
        assert(a.len() == b.len());
        assert forall|i: int| 0 <= i < value.len() implies value[i] == other_value[i] by {
            assert(a[key.len() + 1 + i] == value[i]);
            assert(b[key.len() + 1 + i] == other_value[i]);
        }
        assert(value =~= other_value);
    }
}

} // verus!
