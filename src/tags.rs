use vstd::prelude::*;

verus! {

#[verifier::external_type_specification]
#[verifier::external_body]
pub struct ExTag(metaflac::Tag);

/// The vorbis comments of a tag's first comment block: each stored key with its
/// values in order (no entries when the tag has no such block).
pub uninterp spec fn vorbis_of(t: metaflac::Tag) -> Map<Seq<char>, Seq<Seq<char>>>;

/// A key that upper-casing leaves as it is.
pub open spec fn is_vorbis_key(k: Seq<char>) -> bool {
    &&& k.len() > 0
    &&& forall|i: int| 0 <= i < k.len() ==> 'A' <= #[trigger] k[i] <= 'Z'
}

/// Relies on `metaflac::Tag::new`: a tag without blocks, hence without comments.
#[verifier::external_body]
pub(crate) fn empty_tag() -> (r: metaflac::Tag)
    ensures
        vorbis_of(r).dom() == Set::<Seq<char>>::empty(),
{
    metaflac::Tag::new()
}

/// Relies on `metaflac::Tag::get_vorbis`: the values of the first comment block under
/// the upper-cased key, in order, or `None` when there are none.
#[verifier::external_body]
pub(crate) fn vorbis_values(tag: &metaflac::Tag, key: &str) -> (r: Option<Vec<String>>)
    requires
        is_vorbis_key(key@),
    ensures
        r is Some <==> vorbis_of(*tag).contains_key(key@),
        r is Some ==> r->0.deep_view() == vorbis_of(*tag)[key@],
{
    tag.get_vorbis(key).map(|vals| vals.map(|v| v.to_owned()).collect())
}

/// Relies on `metaflac::Tag::set_vorbis`: the values replace whatever the upper-cased
/// key held in the first comment block, which is added when missing.
#[verifier::external_body]
pub(crate) fn set_vorbis_values(tag: &mut metaflac::Tag, key: &str, values: Vec<String>)
    requires
        is_vorbis_key(key@),
    ensures
        vorbis_of(*final(tag)) == vorbis_of(*old(tag)).insert(key@, values.deep_view()),
{
    tag.set_vorbis(key, values)
}

} // verus!
