//! What the transaction builder handles: contract methods, queued calls, saved
//! templates and the verdict of a batch simulation.

use vstd::prelude::*;

use crate::primitives::Address;
use crate::primitives::U256;
use crate::text::lemma_next;
use crate::text::model_of;
use crate::text::models;
use crate::text::replicate;
use crate::text::replicate_opt;
use crate::text::Replica;

verus! {

/// How many calls one transaction carries and still gets read before it is
/// signed.
pub const MAX_BATCH_CALLS: usize = 64;

/// The largest bundle text the import box takes, in bytes.
pub const MAX_BUNDLE_BYTES: usize = 1048576;

/// A parameter of a contract method.
#[derive(Debug, Clone, PartialEq, Eq)]
pub struct AbiParam {
    pub name: String,
    /// The canonical type, such as `uint256`.
    pub ty_str: String,
}

#[verifier::ext_equal]
pub struct ParamModel {
    pub name: Seq<char>,
    pub ty_str: Seq<char>,
}

impl View for AbiParam {
    type V = ParamModel;

    open spec fn view(&self) -> ParamModel {
        ParamModel { name: self.name@, ty_str: self.ty_str@ }
    }
}

impl Replica for AbiParam {
    fn replica(&self) -> (r: Self) {
        AbiParam { name: self.name.clone(), ty_str: self.ty_str.clone() }
    }
}

/// How a method's name and parameters were come by.
#[derive(Debug, Clone, PartialEq, Eq)]
pub enum MethodProvenance {
    /// An ABI declares it.
    Declared,
    /// One known signature has its selector, and fits the code.
    Matched,
    /// Several known signatures fit. One of them is shown.
    Ambiguous { alternatives: Vec<String> },
    /// Known signatures have its selector, but do not fit the code.
    Mismatched { claimed: Vec<String> },
    /// Only the selector was recovered.
    SelectorOnly,
}

#[verifier::ext_equal]
pub enum ProvenanceModel {
    Declared,
    Matched,
    Ambiguous { alternatives: Seq<Seq<char>> },
    Mismatched { claimed: Seq<Seq<char>> },
    SelectorOnly,
}

impl View for MethodProvenance {
    type V = ProvenanceModel;

    open spec fn view(&self) -> ProvenanceModel {
        match *self {
            MethodProvenance::Declared => ProvenanceModel::Declared,
            MethodProvenance::Matched => ProvenanceModel::Matched,
            MethodProvenance::Ambiguous { alternatives } => ProvenanceModel::Ambiguous {
                alternatives: models(alternatives@),
            },
            MethodProvenance::Mismatched { claimed } => ProvenanceModel::Mismatched {
                claimed: models(claimed@),
            },
            MethodProvenance::SelectorOnly => ProvenanceModel::SelectorOnly,
        }
    }
}

impl Replica for MethodProvenance {
    fn replica(&self) -> (r: Self) {
        match self {
            MethodProvenance::Declared => MethodProvenance::Declared,
            MethodProvenance::Matched => MethodProvenance::Matched,
            MethodProvenance::Ambiguous { alternatives } => MethodProvenance::Ambiguous {
                alternatives: replicate(alternatives),
            },
            MethodProvenance::Mismatched { claimed } => MethodProvenance::Mismatched {
                claimed: replicate(claimed),
            },
            MethodProvenance::SelectorOnly => MethodProvenance::SelectorOnly,
        }
    }
}

impl ProvenanceModel {
    /// Whether the argument list is somebody's declaration, so that an empty one
    /// says that there are no arguments.
    pub open spec fn declares(self) -> bool {
        self is Declared || self is Matched || self is Ambiguous
    }
}

impl MethodProvenance {
    /// Whether the argument list is somebody's declaration. A list recovered
    /// from code is not: it is empty for a method without arguments, and for one
    /// whose body could not be reached.
    pub fn declares_argument_list(&self) -> (r: bool)
        ensures
            r == self@.declares(),
    {
        matches!(
            self,
            MethodProvenance::Declared | MethodProvenance::Matched | MethodProvenance::Ambiguous { .. }
        )
    }
}

/// A method of a contract, as far as the composer knows it.
#[derive(Debug, Clone, PartialEq, Eq)]
pub struct AbiMethod {
    pub name: String,
    pub inputs: Vec<AbiParam>,
    pub outputs: Vec<AbiParam>,
    pub payable: bool,
    pub selector: u32,
    pub signature: String,
    pub provenance: MethodProvenance,
}

#[verifier::ext_equal]
pub struct MethodModel {
    pub name: Seq<char>,
    pub inputs: Seq<ParamModel>,
    pub outputs: Seq<ParamModel>,
    pub payable: bool,
    pub selector: u32,
    pub signature: Seq<char>,
    pub provenance: ProvenanceModel,
}

impl View for AbiMethod {
    type V = MethodModel;

    open spec fn view(&self) -> MethodModel {
        MethodModel {
            name: self.name@,
            inputs: models(self.inputs@),
            outputs: models(self.outputs@),
            payable: self.payable,
            selector: self.selector,
            signature: self.signature@,
            provenance: self.provenance@,
        }
    }
}

impl Replica for AbiMethod {
    fn replica(&self) -> (r: Self) {
        AbiMethod {
            name: self.name.clone(),
            inputs: replicate(&self.inputs),
            outputs: replicate(&self.outputs),
            payable: self.payable,
            selector: self.selector,
            signature: self.signature.clone(),
            provenance: self.provenance.replica(),
        }
    }
}

impl MethodModel {
    /// Why the method is to be used with care.
    pub open spec fn caution_text(self) -> Option<Seq<char>> {
        match self.provenance {
            ProvenanceModel::Declared | ProvenanceModel::Matched => None,
            ProvenanceModel::Ambiguous { .. } => Some(
                "Several known methods share this selector — the name shown may not be this contract's."@,
            ),
            ProvenanceModel::Mismatched { .. } | ProvenanceModel::SelectorOnly => Some(
                if self.inputs.len() == 0 {
                    "No parameters could be recovered — this would send a bare 4-byte call. Paste the ABI if the method takes any."@
                } else {
                    "The parameters were recovered from bytecode — paste the ABI to be sure of them."@
                },
            ),
        }
    }
}

impl AbiMethod {
    /// Why the method is to be used with care, going by what was recovered: a
    /// method without a declared argument list says so, and most sharply where
    /// nothing was recovered. The words, and that a single signature which fits
    /// is not doubted, are this library's own choice.
    pub fn caution(&self) -> (r: Option<String>)
        ensures
            model_of(r) == self@.caution_text(),
    {
        proof {
            assert(self@.inputs.len() == self.inputs@.len());
        }
        match &self.provenance {
            MethodProvenance::Declared => None,
            MethodProvenance::Matched => None,
            MethodProvenance::Ambiguous { .. } => Some(
                "Several known methods share this selector — the name shown may not be this contract's.".to_owned(),
            ),
            _ => Some(
                if self.inputs.len() == 0 {
                    "No parameters could be recovered — this would send a bare 4-byte call. Paste the ABI if the method takes any.".to_owned()
                } else {
                    "The parameters were recovered from bytecode — paste the ABI to be sure of them.".to_owned()
                },
            ),
        }
    }
}

/// Where the methods of a loaded contract come from.
#[derive(Debug, Clone, Copy, PartialEq, Eq, Structural)]
pub enum AbiSource {
    Known,
    Pasted,
    Bytecode,
}

/// A contract loaded into the composer.
#[derive(Debug, Clone, PartialEq, Eq)]
pub struct LoadedContract {
    pub address: Address,
    pub name: String,
    pub label: String,
    pub kaomoji: Option<String>,
    pub source: AbiSource,
    pub methods: Vec<AbiMethod>,
    pub read_methods: Vec<AbiMethod>,
    /// The implementation the methods were recovered from, behind a proxy.
    pub proxy_impl: Option<Address>,
}

#[verifier::ext_equal]
pub struct ContractModel {
    pub address: Address,
    pub name: Seq<char>,
    pub label: Seq<char>,
    pub kaomoji: Option<Seq<char>>,
    pub source: AbiSource,
    pub methods: Seq<MethodModel>,
    pub read_methods: Seq<MethodModel>,
    pub proxy_impl: Option<Address>,
}

impl View for LoadedContract {
    type V = ContractModel;

    open spec fn view(&self) -> ContractModel {
        ContractModel {
            address: self.address,
            name: self.name@,
            label: self.label@,
            kaomoji: model_of(self.kaomoji),
            source: self.source,
            methods: models(self.methods@),
            read_methods: models(self.read_methods@),
            proxy_impl: self.proxy_impl,
        }
    }
}

impl Replica for LoadedContract {
    fn replica(&self) -> (r: Self) {
        LoadedContract {
            address: self.address,
            name: self.name.clone(),
            label: self.label.clone(),
            kaomoji: replicate_opt(&self.kaomoji),
            source: self.source,
            methods: replicate(&self.methods),
            read_methods: replicate(&self.read_methods),
            proxy_impl: self.proxy_impl,
        }
    }
}

impl ContractModel {
    /// The same contract at `address`, with its methods from `source`.
    pub open spec fn placed(self, address: Address, source: AbiSource) -> ContractModel {
        ContractModel { address, source, ..self }
    }

    /// The contract recovered from the code of `implementation`, as it stands
    /// at `address`: calls go there, whatever the code belongs to.
    pub open spec fn recovered_at(
        self,
        address: Address,
        implementation: Address,
    ) -> ContractModel {
        ContractModel {
            proxy_impl: if implementation == address {
                None
            } else {
                Some(implementation)
            },
            ..self.placed(address, AbiSource::Bytecode)
        }
    }
}

impl LoadedContract {
    /// The same contract at `address`, with its methods from `source`.
    pub fn placed(self, address: Address, source: AbiSource) -> (r: Self)
        ensures
            r@ == self@.placed(address, source),
    {
        LoadedContract { address, source, ..self }
    }

    /// The contract recovered from the code of `implementation`, as it stands
    /// at `address`.
    pub fn recovered_at(self, address: Address, implementation: Address) -> (r: Self)
        ensures
            r@ == self@.recovered_at(address, implementation),
    {
        let proxy_impl: Option<Address> = if implementation == address {
            None
        } else {
            Some(implementation)
        };
        LoadedContract { proxy_impl, ..self.placed(address, AbiSource::Bytecode) }
    }
}

/// Whether one of the methods has this selector.
pub open spec fn lists_selector(methods: Seq<MethodModel>, selector: u32) -> bool {
    exists|i: int| 0 <= i < methods.len() && (#[trigger] methods[i]).selector == selector
}

/// The methods of `found` whose selector neither list of `known` holds, in
/// their own order.
pub open spec fn unlisted(found: Seq<MethodModel>, known: ContractModel) -> Seq<MethodModel>
    decreases found.len(),
{
    if found.len() == 0 {
        seq![]
    } else {
        let rest = unlisted(found.drop_last(), known);
        let m = found.last();
        if lists_selector(known.methods, m.selector) || lists_selector(
            known.read_methods,
            m.selector,
        ) {
            rest
        } else {
            rest.push(m)
        }
    }
}

/// A declared contract with the recovered methods it does not list appended.
pub open spec fn merged(declared: ContractModel, recovered: ContractModel) -> ContractModel {
    ContractModel {
        methods: declared.methods + unlisted(recovered.methods, declared),
        read_methods: declared.read_methods + unlisted(recovered.read_methods, declared),
        ..declared
    }
}

/// Whether a method list holds a selector.
fn has_selector(methods: &Vec<AbiMethod>, selector: u32) -> (r: bool)
    ensures
        r == lists_selector(models(methods@), selector),
{
    let mut i: usize = 0;
    while i < methods.len()
        invariant
            i <= methods@.len(),
            forall|k: int|
                0 <= k < i ==> (#[trigger] models(methods@)[k]).selector != selector,
        decreases methods@.len() - i,
    {
        if methods[i].selector == selector {
            proof {
                assert(models(methods@)[i as int].selector == selector);
            }
            return true;
        }
        i = i + 1;
    }
    false
}

/// The methods of `found` whose selector neither list of `known` holds.
fn only_unlisted(found: &Vec<AbiMethod>, known: &LoadedContract) -> (r: Vec<AbiMethod>)
    ensures
        models(r@) == unlisted(models(found@), known@),
{
    let mut out: Vec<AbiMethod> = Vec::new();
    let mut i: usize = 0;
    proof {
        assert(models(out@) =~= seq![]);
    }
    while i < found.len()
        invariant
            i <= found@.len(),
            models(out@) == unlisted(models(found@).take(i as int), known@),
        decreases found@.len() - i,
    {
        proof {
            lemma_next(models(found@), i as int);
        }
        let s: u32 = found[i].selector;
        if !has_selector(&known.methods, s) && !has_selector(&known.read_methods, s) {
            let ghost before = out@;
            out.push(found[i].replica());
            proof {
                assert(models(out@) =~= models(before).push(found@[i as int]@));
            }
        }
        i = i + 1;
    }
    proof {
        assert(models(found@).take(i as int) =~= models(found@));
    }
    out
}

/// Appends the methods of one list to another.
fn append_methods(to: &mut Vec<AbiMethod>, more: Vec<AbiMethod>)
    ensures
        models(final(to)@) == models(old(to)@) + models(more@),
{
    let mut more: Vec<AbiMethod> = more;
    let ghost (a, b) = (to@, more@);
    to.append(&mut more);
    proof {
        assert(models(a + b) =~= models(a) + models(b));
    }
}

/// Folds recovered selectors into a declared contract: the declared methods
/// keep their names and places, and only selectors they leave out are added.
pub fn merge_recovered(declared: LoadedContract, recovered: LoadedContract) -> (r: LoadedContract)
    ensures
        r@ == merged(declared@, recovered@),
{
    let new_methods: Vec<AbiMethod> = only_unlisted(&recovered.methods, &declared);
    let new_reads: Vec<AbiMethod> = only_unlisted(&recovered.read_methods, &declared);
    let mut out: LoadedContract = declared;
    append_methods(&mut out.methods, new_methods);
    append_methods(&mut out.read_methods, new_reads);
    out
}

/// An argument of a queued call, decoded for display.
#[derive(Debug, Clone, PartialEq, Eq)]
pub struct DecodedArg {
    pub name: String,
    pub value: String,
}

#[verifier::ext_equal]
pub struct ArgModel {
    pub name: Seq<char>,
    pub value: Seq<char>,
}

impl View for DecodedArg {
    type V = ArgModel;

    open spec fn view(&self) -> ArgModel {
        ArgModel { name: self.name@, value: self.value@ }
    }
}

impl Replica for DecodedArg {
    fn replica(&self) -> (r: Self) {
        DecodedArg { name: self.name.clone(), value: self.value.clone() }
    }
}

/// A call waiting in the batch.
#[derive(Debug, Clone, PartialEq, Eq)]
pub struct QueuedCall {
    pub id: u64,
    pub to: Address,
    pub value: U256,
    pub data: Vec<u8>,
    pub title: String,
    pub detail: String,
    /// The method's signature; none for raw calldata.
    pub signature: Option<String>,
    pub decoded_args: Vec<DecodedArg>,
}

#[verifier::ext_equal]
pub struct CallModel {
    pub id: u64,
    pub to: Address,
    pub value: U256,
    pub data: Seq<u8>,
    pub title: Seq<char>,
    pub detail: Seq<char>,
    pub signature: Option<Seq<char>>,
    pub decoded_args: Seq<ArgModel>,
}

impl View for QueuedCall {
    type V = CallModel;

    open spec fn view(&self) -> CallModel {
        CallModel {
            id: self.id,
            to: self.to,
            value: self.value,
            data: self.data@,
            title: self.title@,
            detail: self.detail@,
            signature: model_of(self.signature),
            decoded_args: models(self.decoded_args@),
        }
    }
}

/// Duplicates a byte string.
pub fn replicate_bytes(b: &Vec<u8>) -> (r: Vec<u8>)
    ensures
        r@ == b@,
{
    let mut out: Vec<u8> = Vec::new();
    let mut i: usize = 0;
    while i < b.len()
        invariant
            i <= b@.len(),
            out@ =~= b@.take(i as int),
        decreases b@.len() - i,
    {
        out.push(b[i]);
        i = i + 1;
    }
    out
}

impl Replica for QueuedCall {
    fn replica(&self) -> (r: Self) {
        QueuedCall {
            id: self.id,
            to: self.to,
            value: self.value,
            data: replicate_bytes(&self.data),
            title: self.title.clone(),
            detail: self.detail.clone(),
            signature: replicate_opt(&self.signature),
            decoded_args: replicate(&self.decoded_args),
        }
    }
}

impl QueuedCall {
    /// Whether the call was composed from raw calldata.
    pub fn is_raw(&self) -> (r: bool)
        ensures
            r == (self@.signature is None),
    {
        self.signature.is_none()
    }

    /// The first four bytes of the calldata, if there are that many.
    pub fn selector(&self) -> (r: Option<Vec<u8>>)
        ensures
            r is Some == (self@.data.len() >= 4),
            r matches Some(s) ==> s@ == self@.data.take(4),
    {
        if self.data.len() < 4 {
            return None;
        }
        let mut out: Vec<u8> = Vec::new();
        out.push(self.data[0]);
        out.push(self.data[1]);
        out.push(self.data[2]);
        out.push(self.data[3]);
        proof {
            assert(out@ =~= self.data@.take(4));
        }
        Some(out)
    }
}

/// A saved batch.
#[derive(Debug, Clone, PartialEq, Eq)]
pub struct Template {
    pub name: String,
    pub kaomoji: String,
    pub note: String,
    pub call_count: usize,
    /// The account the batch was composed as, where that was recorded.
    pub from: Option<Address>,
    /// The stored bundle.
    pub bundle: String,
}

#[verifier::ext_equal]
pub struct TemplateModel {
    pub name: Seq<char>,
    pub kaomoji: Seq<char>,
    pub note: Seq<char>,
    pub call_count: usize,
    pub from: Option<Address>,
    pub bundle: Seq<char>,
}

impl View for Template {
    type V = TemplateModel;

    open spec fn view(&self) -> TemplateModel {
        TemplateModel {
            name: self.name@,
            kaomoji: self.kaomoji@,
            note: self.note@,
            call_count: self.call_count,
            from: self.from,
            bundle: self.bundle@,
        }
    }
}

impl Replica for Template {
    fn replica(&self) -> (r: Self) {
        Template {
            name: self.name.clone(),
            kaomoji: self.kaomoji.clone(),
            note: self.note.clone(),
            call_count: self.call_count,
            from: self.from,
            bundle: self.bundle.clone(),
        }
    }
}

/// A token transfer seen in a simulation.
#[derive(Debug, Clone, Copy, PartialEq, Eq, Structural)]
pub struct TokenTransfer {
    pub token: Address,
    pub from: Address,
    pub to: Address,
    pub amount: U256,
}

impl View for TokenTransfer {
    type V = TokenTransfer;

    open spec fn view(&self) -> TokenTransfer {
        *self
    }
}

impl Replica for TokenTransfer {
    fn replica(&self) -> (r: Self) {
        *self
    }
}

/// How a batch simulation ended. A step counts the calls that were run, from
/// zero.
#[derive(Debug, Clone, PartialEq, Eq)]
pub enum BatchOutcome {
    Success,
    Revert { step: usize, reason: String },
    Halt { step: usize, reason: String },
    Error(String),
    Unavailable,
}

#[verifier::ext_equal]
pub enum OutcomeModel {
    Success,
    Revert { step: usize, reason: Seq<char> },
    Halt { step: usize, reason: Seq<char> },
    Error(Seq<char>),
    Unavailable,
}

impl View for BatchOutcome {
    type V = OutcomeModel;

    open spec fn view(&self) -> OutcomeModel {
        match *self {
            BatchOutcome::Success => OutcomeModel::Success,
            BatchOutcome::Revert { step, reason } => OutcomeModel::Revert { step, reason: reason@ },
            BatchOutcome::Halt { step, reason } => OutcomeModel::Halt { step, reason: reason@ },
            BatchOutcome::Error(e) => OutcomeModel::Error(e@),
            BatchOutcome::Unavailable => OutcomeModel::Unavailable,
        }
    }
}

impl Replica for BatchOutcome {
    fn replica(&self) -> (r: Self) {
        match self {
            BatchOutcome::Success => BatchOutcome::Success,
            BatchOutcome::Revert { step, reason } => BatchOutcome::Revert {
                step: *step,
                reason: reason.clone(),
            },
            BatchOutcome::Halt { step, reason } => BatchOutcome::Halt {
                step: *step,
                reason: reason.clone(),
            },
            BatchOutcome::Error(e) => BatchOutcome::Error(e.clone()),
            BatchOutcome::Unavailable => BatchOutcome::Unavailable,
        }
    }
}

/// The result of simulating a batch.
#[derive(Debug, Clone, PartialEq, Eq)]
pub struct BatchSimResult {
    pub outcome: BatchOutcome,
    pub gas_used: u64,
    pub transfers: Vec<TokenTransfer>,
    /// False when some read behind the run was not verified.
    pub verified: bool,
    pub base_fee_per_gas: u64,
    pub block: u64,
    pub block_gas_limit: u64,
}

#[verifier::ext_equal]
pub struct SimModel {
    pub outcome: OutcomeModel,
    pub gas_used: u64,
    pub transfers: Seq<TokenTransfer>,
    pub verified: bool,
    pub base_fee_per_gas: u64,
    pub block: u64,
    pub block_gas_limit: u64,
}

impl View for BatchSimResult {
    type V = SimModel;

    open spec fn view(&self) -> SimModel {
        SimModel {
            outcome: self.outcome@,
            gas_used: self.gas_used,
            transfers: models(self.transfers@),
            verified: self.verified,
            base_fee_per_gas: self.base_fee_per_gas,
            block: self.block,
            block_gas_limit: self.block_gas_limit,
        }
    }
}

impl Replica for BatchSimResult {
    fn replica(&self) -> (r: Self) {
        BatchSimResult {
            outcome: self.outcome.replica(),
            gas_used: self.gas_used,
            transfers: replicate(&self.transfers),
            verified: self.verified,
            base_fee_per_gas: self.base_fee_per_gas,
            block: self.block,
            block_gas_limit: self.block_gas_limit,
        }
    }
}

/// Whether a batch fits into the block it was simulated against.
#[derive(Debug, Clone, Copy, PartialEq, Eq, Structural)]
pub enum GasFit {
    /// The block's limit is not known.
    Unknown,
    Fits,
    Exceeds { gas_used: u64, block_gas_limit: u64 },
}

impl SimModel {
    /// A run that failed for `reason` before it reached a verdict.
    pub open spec fn failed(reason: Seq<char>) -> SimModel {
        SimModel {
            outcome: OutcomeModel::Error(reason),
            gas_used: 0,
            transfers: seq![],
            verified: false,
            base_fee_per_gas: 0,
            block: 0,
            block_gas_limit: 0,
        }
    }

    /// Metered gas at or over the block's limit cannot be included. Reading a
    /// limit of zero as one that is not known is this library's own choice.
    pub open spec fn fit(self) -> GasFit {
        if self.block_gas_limit == 0 {
            GasFit::Unknown
        } else if self.gas_used >= self.block_gas_limit {
            GasFit::Exceeds { gas_used: self.gas_used, block_gas_limit: self.block_gas_limit }
        } else {
            GasFit::Fits
        }
    }
}

impl BatchSimResult {
    /// A run that failed before it reached a verdict.
    pub fn errored(reason: String) -> (r: Self)
        ensures
            r@ == SimModel::failed(reason@),
    {
        let r: BatchSimResult = BatchSimResult {
            outcome: BatchOutcome::Error(reason),
            gas_used: 0,
            transfers: Vec::new(),
            verified: false,
            base_fee_per_gas: 0,
            block: 0,
            block_gas_limit: 0,
        };
        proof {
            assert(models(r.transfers@) =~= seq![]);
        }
        r
    }

    /// Whether every call succeeded.
    pub fn is_success(&self) -> (r: bool)
        ensures
            r == (self@.outcome is Success),
    {
        matches!(self.outcome, BatchOutcome::Success)
    }

    /// Whether the batch fits into the block it was simulated against.
    pub fn gas_fit(&self) -> (r: GasFit)
        ensures
            r == self@.fit(),
    {
        if self.block_gas_limit == 0 {
            GasFit::Unknown
        } else if self.gas_used >= self.block_gas_limit {
            GasFit::Exceeds { gas_used: self.gas_used, block_gas_limit: self.block_gas_limit }
        } else {
            GasFit::Fits
        }
    }
}

/// The canonical MultiSendCallOnly library of Safe 1.3.0.
pub open spec fn spec_multisend_call_only_1_3_0() -> Address {
    Address { hi: 0x40a2_accb, lo: 0xd92b_ca93_8b02_010e_17a5_b892_9b49_130d }
}

/// The canonical MultiSendCallOnly library of Safe 1.4.1.
pub open spec fn spec_multisend_call_only_1_4_1() -> Address {
    Address { hi: 0x9641_d764, lo: 0xfc13_c8b6_24c0_4430_c735_6c1c_7c81_02e2 }
}

/// The canonical MultiSendCallOnly library of Safe 1.3.0.
pub fn multisend_call_only_1_3_0() -> (r: Address)
    ensures
        r == spec_multisend_call_only_1_3_0(),
{
    Address { hi: 0x40a2_accb, lo: 0xd92b_ca93_8b02_010e_17a5_b892_9b49_130d }
}

/// The canonical MultiSendCallOnly library of Safe 1.4.1.
pub fn multisend_call_only_1_4_1() -> (r: Address)
    ensures
        r == spec_multisend_call_only_1_4_1(),
{
    Address { hi: 0x9641_d764, lo: 0xfc13_c8b6_24c0_4430_c735_6c1c_7c81_02e2 }
}

} // verus!
