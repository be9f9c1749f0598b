//! Taking a query's return data apart.

use vstd::prelude::*;

use crate::text::models;
use crate::tx_builder::model::Pane;
use crate::tx_builder::view::composer::list_types;
use crate::tx_builder::view::composer::param_types;
use crate::tx_builder::TxBuilderApp;
use crate::txbuilder::AbiMethod;
use crate::txbuilder::MethodModel;

verus! {

/// The values that return data holds for parameters of these types, each as its
/// own ABI encoding; nothing when a type is not one or the data does not decode.
pub uninterp spec fn decoded_params(types: Seq<Seq<char>>, data: Seq<u8>) -> Option<Seq<Seq<u8>>>;

/// The bytes of each value.
pub open spec fn byte_lists(o: Option<Vec<Vec<u8>>>) -> Option<Seq<Seq<u8>>> {
    match o {
        Some(v) => Some(models(v@)),
        None => None,
    }
}

/// `alloy::dyn_abi::DynSolType::abi_decode_params` on the tuple of the types
/// that `DynSolType::parse` reads from the texts; each value comes back as its
/// `DynSolValue::abi_encode`. Which values those are is a function of the types
/// and the data.
#[verifier::external_body]
fn decode_params(types: &Vec<String>, data: &Vec<u8>) -> (r: Option<Vec<Vec<u8>>>)
    ensures
        byte_lists(r) == decoded_params(models(types@), data@),
{
    let parsed: Result<Vec<_>, _> = types.iter().map(|t| alloy::dyn_abi::DynSolType::parse(t)).collect();
    match alloy::dyn_abi::DynSolType::Tuple(parsed.ok()?).abi_decode_params(data) {
        Ok(alloy::dyn_abi::DynSolValue::Tuple(v)) => Some(v.iter().map(|x| x.abi_encode()).collect()),
        _ => None,
    }
}

/// The values that return data holds for a method's declared outputs. A method
/// without outputs has none.
pub open spec fn output_values(m: MethodModel, data: Seq<u8>) -> Option<Seq<Seq<u8>>> {
    if m.outputs.len() == 0 {
        None
    } else {
        decoded_params(param_types(m.outputs), data)
    }
}

impl Pane {
    /// The values that return data holds for the selected query.
    pub open spec fn returned_values(self, data: Seq<u8>) -> Option<Seq<Seq<u8>>> {
        match self.selected_read_method() {
            Some(m) => output_values(m, data),
            None => None,
        }
    }
}

/// The values that return data holds for a method's declared outputs.
pub fn decode_outputs(m: &AbiMethod, data: &Vec<u8>) -> (r: Option<Vec<Vec<u8>>>)
    ensures
        byte_lists(r) == output_values(m@, data@),
{
    proof {
        assert(models(m.outputs@).len() == m.outputs@.len());
    }
    if m.outputs.len() == 0 {
        return None;
    }
    decode_params(&list_types(&m.outputs), data)
}

impl TxBuilderApp {
    /// The values that return data holds for the selected query, each as its
    /// own ABI encoding, ready to be put into words.
    pub fn returned_values(&self, data: &Vec<u8>) -> (r: Option<Vec<Vec<u8>>>)
        ensures
            byte_lists(r) == self@.returned_values(data@),
    {
        match self.selected_read_method() {
            Some(m) => decode_outputs(m, data),
            None => None,
        }
    }
}

} // verus!
