//! Decoded body values: one variant per wire property kind, with the
//! spec-level model used by the decoder's contracts.

use vstd::prelude::*;

verus! {

broadcast use vstd::std_specs::vec::group_vec_axioms;

/// A decoded property value.
///
/// Floating-point properties are carried as their raw IEEE-754 bit patterns
/// (`F32Bits`, `F64Bits`); callers that want a float reinterpret the bits.
/// A `Struct` holds its members in stream order; an `Array` holds its
/// elements in stream order.
#[derive(Debug, PartialEq)]
pub enum GvasValue {
    I8(i8),
    U8(u8),
    I16(i16),
    U16(u16),
    I32(i32),
    U32(u32),
    I64(i64),
    U64(u64),
    F32Bits(u32),
    F64Bits(u64),
    Boolean(bool),
    Text(String),
    DateTime(u64),
    Struct(Vec<(String, GvasValue)>),
    Array(Vec<GvasValue>),
}

/// Spec-level model of [`GvasValue`]: strings as character sequences,
/// containers as mathematical sequences.
pub ghost enum ValueModel {
    I8(i8),
    U8(u8),
    I16(i16),
    U16(u16),
    I32(i32),
    U32(u32),
    I64(i64),
    U64(u64),
    F32Bits(u32),
    F64Bits(u64),
    Boolean(bool),
    Text(Seq<char>),
    DateTime(u64),
    Struct(Seq<(Seq<char>, ValueModel)>),
    Array(Seq<ValueModel>),
}

impl GvasValue {
    /// The model of this value.
    pub open spec fn model(self) -> ValueModel
        decreases self,
    {
        match self {
            GvasValue::I8(x) => ValueModel::I8(x),
            GvasValue::U8(x) => ValueModel::U8(x),
            GvasValue::I16(x) => ValueModel::I16(x),
            GvasValue::U16(x) => ValueModel::U16(x),
            GvasValue::I32(x) => ValueModel::I32(x),
            GvasValue::U32(x) => ValueModel::U32(x),
            GvasValue::I64(x) => ValueModel::I64(x),
            GvasValue::U64(x) => ValueModel::U64(x),
            GvasValue::F32Bits(x) => ValueModel::F32Bits(x),
            GvasValue::F64Bits(x) => ValueModel::F64Bits(x),
            GvasValue::Boolean(x) => ValueModel::Boolean(x),
            GvasValue::Text(s) => ValueModel::Text(s@),
            GvasValue::DateTime(x) => ValueModel::DateTime(x),
            GvasValue::Struct(es) => ValueModel::Struct(entries_model(es@)),
            GvasValue::Array(vs) => ValueModel::Array(values_model(vs@)),
        }
    }
}

/// The model of a sequence of named struct members.
pub open spec fn entries_model(es: Seq<(String, GvasValue)>) -> Seq<(Seq<char>, ValueModel)>
    decreases es,
{
    if es.len() == 0 {
        Seq::empty()
    } else {
        seq![(es[0].0@, es[0].1.model())] + entries_model(es.drop_first())
    }
}

/// The model of a sequence of array elements.
pub open spec fn values_model(vs: Seq<GvasValue>) -> Seq<ValueModel>
    decreases vs,
{
    if vs.len() == 0 {
        Seq::empty()
    } else {
        seq![vs[0].model()] + values_model(vs.drop_first())
    }
}

/// Appending one member extends the model by that member's model.
pub proof fn lemma_entries_model_push(es: Seq<(String, GvasValue)>, e: (String, GvasValue))
    ensures
        entries_model(es.push(e)) == entries_model(es) + seq![(e.0@, e.1.model())],
    decreases es,
{
    if es.len() == 0 {
        assert(es.push(e).drop_first() =~= es);
        assert(entries_model(es.push(e)) =~= entries_model(es) + seq![(e.0@, e.1.model())]);
    } else {
        assert(es.push(e).drop_first() =~= es.drop_first().push(e));
        lemma_entries_model_push(es.drop_first(), e);
        assert(entries_model(es.push(e)) =~= entries_model(es) + seq![(e.0@, e.1.model())]);
    }
}

/// Appending one element extends the model by that element's model.
pub proof fn lemma_values_model_push(vs: Seq<GvasValue>, v: GvasValue)
    ensures
        values_model(vs.push(v)) == values_model(vs) + seq![v.model()],
    decreases vs,
{
    if vs.len() == 0 {
        assert(vs.push(v).drop_first() =~= vs);
        assert(values_model(vs.push(v)) =~= values_model(vs) + seq![v.model()]);
    } else {
        assert(vs.push(v).drop_first() =~= vs.drop_first().push(v));
        lemma_values_model_push(vs.drop_first(), v);
        assert(values_model(vs.push(v)) =~= values_model(vs) + seq![v.model()]);
    }
}

} // verus!
