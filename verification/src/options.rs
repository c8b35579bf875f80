use vstd::prelude::*;
use crate::provider::LlmProvider;
use crate::provider::spec_display_name;
use crate::provider::spec_from_index;
use crate::text::digit_char;
use crate::text::digit_to_char;
use crate::text::lemma_digit_char_injective;
use crate::text::push_char;

verus! {

#[verifier::external_type_specification]
#[verifier::external_body]
#[verifier::reject_recursive_types(K)]
#[verifier::reject_recursive_types(V)]
#[verifier::reject_recursive_types(S)]
pub struct ExIndexMap<K, V, S>(indexmap::IndexMap<K, V, S>);

/// The key-value pairs a map holds, in insertion order.
pub uninterp spec fn index_map_entries(m: indexmap::IndexMap<String, String>) -> Seq<
    (Seq<char>, Seq<char>),
>;

/// Relies on `indexmap::IndexMap::new`: a fresh map holds nothing.
#[verifier::external_body]
fn index_map_new() -> (r: indexmap::IndexMap<String, String>)
    ensures
        index_map_entries(r) == Seq::<(Seq<char>, Seq<char>)>::empty(),
{
    indexmap::IndexMap::new()
}

/// Relies on `indexmap::IndexMap::insert`: a pair under a key the map does
/// not yet hold is appended, last in insertion order, leaving the earlier
/// pairs in place.
#[verifier::external_body]
fn index_map_insert(m: &mut indexmap::IndexMap<String, String>, k: String, v: String)
    requires
        forall|i: int|
            0 <= i < index_map_entries(*old(m)).len() ==> (#[trigger] index_map_entries(
                *old(m),
            )[i]).0 != k@,
    ensures
        index_map_entries(*final(m)) == index_map_entries(*old(m)).push((k@, v@)),
{
    m.insert(k, v);
}

impl LlmProvider {
    /// The provider-choice menu: the digits 1 through 8 as keys, in that
    /// order, each mapped to the display name of the provider at that index.
    /// Ollama at index 0 and `other` are left out.
    pub fn get_indexmap_options() -> (r: indexmap::IndexMap<String, String>)
        ensures
            index_map_entries(r).len() == 8,
            forall|i: int|
                0 <= i < 8 ==> #[trigger] index_map_entries(r)[i] == (
                    seq![digit_char(i + 1)],
                    spec_display_name(spec_from_index(i + 1)),
                ),
    {
        let mut options = index_map_new();
        let mut x: usize = 1;
        while x < 9
            invariant
                1 <= x <= 9,
                index_map_entries(options).len() == x - 1,
                forall|i: int|
                    0 <= i < x - 1 ==> #[trigger] index_map_entries(options)[i] == (
                        seq![digit_char(i + 1)],
                        spec_display_name(spec_from_index(i + 1)),
                    ),
            decreases 9 - x,
        {
            let provider = LlmProvider::from_usize(x);
            let name = provider.to_string();
            let mut key = String::new();
            push_char(&mut key, digit_to_char(x as u64));
            proof {
                assert(key@ =~= seq![digit_char(x as int)]);
                assert forall|i: int|
                    0 <= i < index_map_entries(options).len() implies (#[trigger] index_map_entries(
                    options,
                )[i]).0 != key@ by {
                    lemma_digit_char_injective(i + 1, x as int);
                    assert((index_map_entries(options)[i]).0[0] != key@[0]);
                }
            }
            let ghost before = index_map_entries(options);
            index_map_insert(&mut options, key, name);
            x = x + 1;
            proof {
                assert(index_map_entries(options).len() == x - 1);
                assert forall|i: int|
                    0 <= i < x - 1 implies #[trigger] index_map_entries(options)[i] == (
                    seq![digit_char(i + 1)],
                    spec_display_name(spec_from_index(i + 1)),
                ) by {
                    if i < x - 2 {
                        assert(index_map_entries(options)[i] == before[i]);
                    }
                }
            }
        }
        options
    }
}

} // verus!
