//! Facts about the element-wise models of value sequences.
use vstd::prelude::*;

use crate::value::{entry_models, models, Value};

verus! {

pub proof fn lemma_models_rec(s: Seq<Value>)
    ensures
        models(s).len() == s.len(),
        forall|i: int| 0 <= i < s.len() ==> #[trigger] models(s)[i] == s[i].model(),
    decreases s.len(),
{
    if s.len() > 0 {
        lemma_models_rec(s.drop_first());
        assert forall|i: int| 0 <= i < s.len() implies #[trigger] models(s)[i] == s[i].model() by {
            if i > 0 {
                assert(s.drop_first()[i - 1] == s[i]);
            }
        }
    }
}

pub proof fn lemma_entry_models_rec(s: Seq<(String, Value)>)
    ensures
        entry_models(s).len() == s.len(),
        forall|i: int|
            0 <= i < s.len() ==> #[trigger] entry_models(s)[i] == (s[i].0@, s[i].1.model()),
    decreases s.len(),
{
    if s.len() > 0 {
        lemma_entry_models_rec(s.drop_first());
        assert forall|i: int| 0 <= i < s.len() implies #[trigger] entry_models(s)[i] == (
        s[i].0@,
        s[i].1.model(),
        ) by {
            if i > 0 {
                assert(s.drop_first()[i - 1] == s[i]);
            }
        }
    }
}

pub broadcast proof fn lemma_models_len(s: Seq<Value>)
    ensures
        #[trigger] models(s).len() == s.len(),
{
    lemma_models_rec(s);
}

pub broadcast proof fn lemma_models_index(s: Seq<Value>, i: int)
    requires
        0 <= i < s.len(),
    ensures
        #[trigger] models(s)[i] == s[i].model(),
{
    lemma_models_rec(s);
}

pub broadcast proof fn lemma_entry_models_len(s: Seq<(String, Value)>)
    ensures
        #[trigger] entry_models(s).len() == s.len(),
{
    lemma_entry_models_rec(s);
}

pub broadcast proof fn lemma_entry_models_index(s: Seq<(String, Value)>, i: int)
    requires
        0 <= i < s.len(),
    ensures
        #[trigger] entry_models(s)[i] == (s[i].0@, s[i].1.model()),
{
    lemma_entry_models_rec(s);
}

pub broadcast group group_value_models {
    lemma_models_len,
    lemma_models_index,
    lemma_entry_models_len,
    lemma_entry_models_index,
}

} // verus!
