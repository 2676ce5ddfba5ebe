//! Where the dictionary client sends its requests.
use vstd::prelude::*;
use crate::text::chars_of;

verus! {

/// `s` without the `/` characters at its end.
pub open spec fn without_trailing_slashes(s: Seq<char>) -> Seq<char>
    decreases s.len(),
{
    if s.len() > 0 && s.last() == '/' {
        without_trailing_slashes(s.drop_last())
    } else {
        s
    }
}

/// Dropping the trailing slashes leaves a prefix of `s` that does not end in
/// `/`, followed in `s` by slashes only.
pub proof fn law_without_trailing_slashes(s: Seq<char>)
    ensures
        without_trailing_slashes(s).len() <= s.len(),
        without_trailing_slashes(s) == s.take(without_trailing_slashes(s).len() as int),
        without_trailing_slashes(s).len() > 0 ==> without_trailing_slashes(s).last() != '/',
        forall|k: int|
            without_trailing_slashes(s).len() <= k < s.len() ==> #[trigger] s[k] == '/',
    decreases s.len(),
{
    if s.len() > 0 && s.last() == '/' {
        law_without_trailing_slashes(s.drop_last());
        let w = without_trailing_slashes(s.drop_last());
        assert(s.drop_last().take(w.len() as int) =~= s.take(w.len() as int));
        assert forall|k: int| w.len() <= k < s.len() implies #[trigger] s[k] == '/' by {
            if k < s.len() - 1 {
                assert(s.drop_last()[k] == s[k]);
            }
        }
    } else {
        assert(s.take(s.len() as int) =~= s);
    }
}

/// The base address used when none is configured.
pub open spec fn default_api_base_text() -> Seq<char> {
    "http://127.0.0.1:4173"@
}

/// The base address used when none is configured.
pub fn default_api_base() -> (r: String)
    ensures
        r@ == default_api_base_text(),
{
    String::from_str("http://127.0.0.1:4173")
}

/// Address of `path` under the server at `base`: the trailing `/` characters of
/// `base` are dropped, then `path` is appended.
pub fn endpoint_url(base: &str, path: &str) -> (r: String)
    ensures
        r@ == without_trailing_slashes(base@) + path@,
        r@.len() >= path@.len(),
        r@.subrange(r@.len() - path@.len(), r@.len() as int) == path@,
        r@.len() > path@.len() ==> r@[r@.len() - path@.len() - 1] != '/',
{
    proof {
        law_without_trailing_slashes(base@);
    }
    let cs = chars_of(base);
    let mut hi: usize = cs.len();
    assert(base@.take(hi as int) =~= base@);
    while hi > 0 && cs[hi - 1] == '/'
        invariant
            cs@ == base@,
            hi <= cs@.len(),
            without_trailing_slashes(base@) == without_trailing_slashes(base@.take(hi as int)),
        decreases hi,
    {
        assert(base@.take(hi as int).drop_last() =~= base@.take(hi - 1));
        hi = hi - 1;
    }
    assert(base@.subrange(0, hi as int) =~= base@.take(hi as int));
    let kept = String::from_str(base.substring_char(0, hi));
    kept.concat(path)
}

/// Path of the dictionary type `type_id`.
pub open spec fn type_path_text(type_id: Seq<char>) -> Seq<char> {
    "/api/dictionaries/types/"@ + type_id
}

/// Path of the dictionary item `item_id`.
pub open spec fn item_path_text(item_id: Seq<char>) -> Seq<char> {
    "/api/dictionaries/items/"@ + item_id
}

/// Path of the dictionary type `type_id`.
pub fn type_resource_path(type_id: &str) -> (r: String)
    ensures
        r@ == type_path_text(type_id@),
{
    String::from_str("/api/dictionaries/types/").concat(type_id)
}

/// Path of the dictionary item `item_id`.
pub fn item_resource_path(item_id: &str) -> (r: String)
    ensures
        r@ == item_path_text(item_id@),
{
    String::from_str("/api/dictionaries/items/").concat(item_id)
}

} // verus!
