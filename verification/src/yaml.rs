//! A model of YAML documents and the patch operations applied to them.
//!
//! A document is `Null`, a scalar (kept as its source text), a sequence, or
//! a mapping whose entries keep their order and whose keys are strings. The
//! mathematical model of a document is `YamlModel`, built of sequences of
//! characters; every operation is specified against it.

pub mod operations;

use vstd::prelude::*;

verus! {

/// A YAML document.
#[derive(Debug)]
pub enum YamlValue {
    /// The null value.
    Null,
    /// A scalar, kept as its source text.
    Scalar(String),
    /// A sequence of documents.
    Sequence(Vec<YamlValue>),
    /// A mapping from string keys to documents, in insertion order.
    Mapping(Vec<(String, YamlValue)>),
}

/// The mathematical model of a document.
pub enum YamlModel {
    Null,
    Scalar(Seq<char>),
    Sequence(Seq<YamlModel>),
    Mapping(Seq<(Seq<char>, YamlModel)>),
}

/// The model of a document.
pub open spec fn model_of(v: YamlValue) -> YamlModel
    decreases v,
{
    match v {
        YamlValue::Null => YamlModel::Null,
        YamlValue::Scalar(s) => YamlModel::Scalar(s@),
        YamlValue::Sequence(items) => YamlModel::Sequence(models_of_seq(items@)),
        YamlValue::Mapping(entries) => YamlModel::Mapping(models_of_map(entries@)),
    }
}

/// The models of a sequence's items.
pub open spec fn models_of_seq(items: Seq<YamlValue>) -> Seq<YamlModel>
    decreases items,
{
    if items.len() == 0 {
        Seq::empty()
    } else {
        seq![model_of(items.first())] + models_of_seq(items.drop_first())
    }
}

/// The models of a mapping's entries.
pub open spec fn models_of_map(entries: Seq<(String, YamlValue)>) -> Seq<(Seq<char>, YamlModel)>
    decreases entries,
{
    if entries.len() == 0 {
        Seq::empty()
    } else {
        seq![(entries.first().0@, model_of(entries.first().1))] + models_of_map(
            entries.drop_first(),
        )
    }
}

impl View for YamlValue {
    type V = YamlModel;

    open spec fn view(&self) -> YamlModel {
        model_of(*self)
    }
}

/// `models_of_seq` is the pointwise model of the items.
pub proof fn lemma_models_of_seq(items: Seq<YamlValue>)
    ensures
        models_of_seq(items).len() == items.len(),
        forall|i: int|
            0 <= i < items.len() ==> #[trigger] models_of_seq(items)[i] == model_of(items[i]),
    decreases items,
{
    if items.len() > 0 {
        lemma_models_of_seq(items.drop_first());
        assert forall|i: int|
            0 <= i < items.len() implies #[trigger] models_of_seq(items)[i] == model_of(
            items[i],
        ) by {
            if i > 0 {
                assert(models_of_seq(items)[i] == models_of_seq(items.drop_first())[i - 1]);
                assert(items.drop_first()[i - 1] == items[i]);
            }
        }
    }
}

/// `models_of_map` is the pointwise model of the entries.
pub proof fn lemma_models_of_map(entries: Seq<(String, YamlValue)>)
    ensures
        models_of_map(entries).len() == entries.len(),
        forall|i: int|
            0 <= i < entries.len() ==> #[trigger] models_of_map(entries)[i] == (
            entries[i].0@,
            model_of(entries[i].1),
            ),
    decreases entries,
{
    if entries.len() > 0 {
        lemma_models_of_map(entries.drop_first());
        assert forall|i: int|
            0 <= i < entries.len() implies #[trigger] models_of_map(entries)[i] == (
            entries[i].0@,
            model_of(entries[i].1),
            ) by {
            if i > 0 {
                assert(models_of_map(entries)[i] == models_of_map(entries.drop_first())[i - 1]);
                assert(entries.drop_first()[i - 1] == entries[i]);
            }
        }
    }
}

} // verus!
