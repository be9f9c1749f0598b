use alloy::primitives as eth;
use wallet_dashboard::chain::Chain;
use wallet_dashboard::chain::NetworkId;
use wallet_dashboard::primitives::Address;
use wallet_dashboard::primitives::B256;
use wallet_dashboard::primitives::U256;
use wallet_dashboard::tx_builder::query::ComposeChecks;
use wallet_dashboard::tx_builder::question::sample_addresses;
use wallet_dashboard::tx_builder::question::sample_questions;
use wallet_dashboard::tx_builder::reply::decode_outputs;
use wallet_dashboard::tx_builder::request::EoaBatchRequest;
use wallet_dashboard::tx_builder::update::sample_batch;
use wallet_dashboard::tx_builder::view::batch::decoded_panel;
use wallet_dashboard::tx_builder::view::batch::revoke_toggle;
use wallet_dashboard::tx_builder::view::batch::BatchPane;
use wallet_dashboard::tx_builder::view::batch::DecodedLine;
use wallet_dashboard::tx_builder::view::batch::TemplateMode;
use wallet_dashboard::tx_builder::view::composer::param_row;
use wallet_dashboard::tx_builder::view::composer::ComposerBody;
use wallet_dashboard::tx_builder::view::composer::HeadStatus;
use wallet_dashboard::tx_builder::view::composer::ParamInput;
use wallet_dashboard::tx_builder::view::composer::ReadForm;
use wallet_dashboard::tx_builder::view::composer::ResultPanel;
use wallet_dashboard::tx_builder::view::AskedCall;
use wallet_dashboard::tx_builder::view::Builder;
use wallet_dashboard::tx_builder::view::ParamFacts;
use wallet_dashboard::tx_builder::view::Screen;
use wallet_dashboard::tx_builder::view::ViewFacts;
use wallet_dashboard::tx_builder::BatchFate;
use wallet_dashboard::tx_builder::Findings;
use wallet_dashboard::tx_builder::FlashWrap;
use wallet_dashboard::tx_builder::Message;
use wallet_dashboard::tx_builder::Modal;
use wallet_dashboard::tx_builder::Mode;
use wallet_dashboard::tx_builder::Outcome;
use wallet_dashboard::tx_builder::Preflight;
use wallet_dashboard::tx_builder::Question;
use wallet_dashboard::tx_builder::ReadOutcome;
use wallet_dashboard::tx_builder::ReadReply;
use wallet_dashboard::tx_builder::ResolvedCode;
use wallet_dashboard::tx_builder::SampleParts;
use wallet_dashboard::tx_builder::Settled;
use wallet_dashboard::tx_builder::TxBuilderApp;
use wallet_dashboard::tx_builder::VersionGate;
use wallet_dashboard::tx_builder::PREFLIGHT_STALE_AFTER;
use wallet_dashboard::txbuilder::merge_recovered;
use wallet_dashboard::txbuilder::AbiMethod;
use wallet_dashboard::txbuilder::AbiParam;
use wallet_dashboard::txbuilder::AbiSource;
use wallet_dashboard::txbuilder::BatchOutcome;
use wallet_dashboard::txbuilder::BatchSimResult;
use wallet_dashboard::txbuilder::DecodedArg;
use wallet_dashboard::txbuilder::LoadedContract;
use wallet_dashboard::txbuilder::MethodProvenance;
use wallet_dashboard::txbuilder::QueuedCall;
use wallet_dashboard::txbuilder::Template;
use wallet_dashboard::txbuilder::MAX_BATCH_CALLS;
use wallet_dashboard::txbuilder::MAX_BUNDLE_BYTES;

// ── plain values ────────────────────────────────────────────────────

const NOW: u64 = 1_000_000_000_000;

const DEAD: &str = "0x000000000000000000000000000000000000dEaD";
const COFFEE: &str = "0x00000000000000000000000000000000C0FFEE00";
const BEEF: &str = "0x00000000000000000000000000000000BEEF0000";

fn from_eth(a: eth::Address) -> Address {
    let b: [u8; 20] = a.into();
    Address {
        hi: u32::from_be_bytes(b[..4].try_into().unwrap()),
        lo: u128::from_be_bytes(b[4..].try_into().unwrap()),
    }
}

fn to_eth(a: Address) -> eth::Address {
    let mut b = [0u8; 20];
    b[..4].copy_from_slice(&a.hi.to_be_bytes());
    b[4..].copy_from_slice(&a.lo.to_be_bytes());
    eth::Address::from(b)
}

fn addr(s: &str) -> Address {
    from_eth(s.parse::<eth::Address>().unwrap())
}

fn text_of(a: Address) -> String {
    to_eth(a).to_string()
}

fn repeat_address(byte: u8) -> Address {
    from_eth(eth::Address::repeat_byte(byte))
}

fn repeat_hash(byte: u8) -> B256 {
    B256 { hi: u128::from_be_bytes([byte; 16]), lo: u128::from_be_bytes([byte; 16]) }
}

fn zero() -> U256 {
    U256 { hi: 0, lo: 0 }
}

fn safe() -> Address {
    addr("0x5a5a5a5a5a5a5a5a5a5a5a5a5a5a5a5a5a5a5a5a")
}

fn eoa() -> Address {
    addr("0x1111111111111111111111111111111111111111")
}

fn usdc() -> Address {
    addr("0xA0b86991c6218b36c1d19D4a2e9Eb0cE3606eB48")
}

fn aave() -> Address {
    addr("0x87870Bca3F3fD6335C3F4ce8392D69350B4fA4E2")
}

// ── a host that answers the pane's questions ────────────────────────

/// The address a text spells, its capitals checked where it has any.
fn checked_address(text: &str) -> Result<Address, String> {
    let t = text.trim();
    let Some(digits) = t.strip_prefix("0x") else {
        return Err("an address starts with 0x".into());
    };
    let Ok(a) = t.parse::<eth::Address>() else {
        return Err("an address is forty hexadecimal digits".into());
    };
    let mixed = digits.chars().any(|c| c.is_ascii_uppercase())
        && digits.chars().any(|c| c.is_ascii_lowercase());
    if mixed && a.to_string() != t {
        return Err("the capitals fail the EIP-55 checksum".into());
    }
    Ok(from_eth(a))
}

fn param(name: &str, ty: &str) -> AbiParam {
    AbiParam { name: name.into(), ty_str: ty.into() }
}

fn method(name: &str, selector: u32, inputs: Vec<AbiParam>, outputs: Vec<AbiParam>) -> AbiMethod {
    let types: Vec<String> = inputs.iter().map(|p| p.ty_str.clone()).collect();
    AbiMethod {
        name: name.into(),
        signature: format!("{name}({})", types.join(",")),
        inputs,
        outputs,
        payable: false,
        selector,
        provenance: MethodProvenance::Declared,
    }
}

/// The curated contracts.
fn known(chain: Chain, address: Address) -> Option<LoadedContract> {
    if chain != Chain::Mainnet {
        return None;
    }
    if address == usdc() {
        return Some(LoadedContract {
            address,
            name: "USDC".into(),
            label: "USD Coin".into(),
            kaomoji: None,
            source: AbiSource::Known,
            methods: vec![
                method(
                    "transfer",
                    0xa9059cbb,
                    vec![param("to", "address"), param("amount", "uint256")],
                    vec![param("", "bool")],
                ),
                method(
                    "approve",
                    0x095ea7b3,
                    vec![param("spender", "address"), param("amount", "uint256")],
                    vec![param("", "bool")],
                ),
            ],
            read_methods: vec![
                method(
                    "balanceOf",
                    0x70a08231,
                    vec![param("account", "address")],
                    vec![param("", "uint256")],
                ),
                method(
                    "allowance",
                    0xdd62ed3e,
                    vec![param("owner", "address"), param("spender", "address")],
                    vec![param("", "uint256")],
                ),
            ],
            proxy_impl: None,
        });
    }
    if address == aave() {
        return Some(LoadedContract {
            address,
            name: "Aave v3 Pool".into(),
            label: String::new(),
            kaomoji: None,
            source: AbiSource::Known,
            methods: vec![method(
                "supply",
                0x617ba037,
                vec![
                    param("asset", "address"),
                    param("amount", "uint256"),
                    param("onBehalfOf", "address"),
                    param("referralCode", "uint16"),
                ],
                Vec::new(),
            )],
            read_methods: Vec::new(),
            proxy_impl: None,
        });
    }
    None
}

/// One argument as a word.
fn encode_word(ty: &str, text: &str) -> Result<Vec<u8>, String> {
    let t = text.trim();
    if ty == "address" {
        let a = to_eth(checked_address(t)?);
        let mut w = vec![0u8; 12];
        w.extend_from_slice(a.as_slice());
        return Ok(w);
    }
    if ty == "bool" {
        let mut w = vec![0u8; 32];
        w[31] = match t {
            "true" => 1,
            "false" => 0,
            _ => return Err("a bool is true or false".into()),
        };
        return Ok(w);
    }
    let n: u128 = t.parse().map_err(|_| format!("{t:?} is no {ty}"))?;
    let mut w = vec![0u8; 16];
    w.extend_from_slice(&n.to_be_bytes());
    Ok(w)
}

fn args_valid(m: &AbiMethod, args: &[String]) -> bool {
    m.inputs.len() == args.len()
        && m.inputs.iter().zip(args).all(|(p, a)| encode_word(&p.ty_str, a).is_ok())
}

fn encode_call(m: &AbiMethod, args: &[String]) -> Result<Vec<u8>, String> {
    let mut data = m.selector.to_be_bytes().to_vec();
    for (p, a) in m.inputs.iter().zip(args) {
        data.extend(encode_word(&p.ty_str, a)?);
    }
    Ok(data)
}

fn wei(text: &str) -> Result<U256, String> {
    let t = text.trim();
    if t.is_empty() {
        return Ok(zero());
    }
    let n: u128 = t.parse().map_err(|_| "a value is a whole number of wei".to_string())?;
    Ok(U256 { hi: 0, lo: n })
}

fn hex_data(text: &str) -> Result<Vec<u8>, String> {
    let t = text.trim();
    hex::decode(t.strip_prefix("0x").unwrap_or(t)).map_err(|e| e.to_string())
}

fn contract_call(
    id: u64,
    to: Address,
    name: &str,
    m: &AbiMethod,
    args: &[String],
    value: &str,
) -> Result<QueuedCall, String> {
    Ok(QueuedCall {
        id,
        to,
        value: wei(value)?,
        data: encode_call(m, args)?,
        title: m.name.clone(),
        detail: name.into(),
        signature: Some(m.signature.clone()),
        decoded_args: m
            .inputs
            .iter()
            .zip(args)
            .map(|(p, a)| DecodedArg { name: p.name.clone(), value: a.clone() })
            .collect(),
    })
}

fn raw_call(id: u64, to: &str, value: &str, data: &str) -> Result<QueuedCall, String> {
    Ok(QueuedCall {
        id,
        to: checked_address(to)?,
        value: wei(value)?,
        data: hex_data(data)?,
        title: "raw".into(),
        detail: "raw call".into(),
        signature: None,
        decoded_args: Vec::new(),
    })
}

fn pasted(address: &str, abi: &str) -> Result<LoadedContract, String> {
    let v: serde_json::Value = serde_json::from_str(abi).map_err(|e| e.to_string())?;
    let mut methods = Vec::new();
    let mut read_methods = Vec::new();
    for f in v.as_array().ok_or("an ABI is a list")? {
        let inputs = f["inputs"]
            .as_array()
            .map(|l| {
                l.iter()
                    .map(|p| {
                        param(
                            p["name"].as_str().unwrap_or_default(),
                            p["type"].as_str().unwrap_or_default(),
                        )
                    })
                    .collect()
            })
            .unwrap_or_default();
        let mut m = method(f["name"].as_str().unwrap_or_default(), 0, inputs, Vec::new());
        let mutability = f["stateMutability"].as_str().unwrap_or_default();
        m.payable = mutability == "payable";
        if mutability == "view" || mutability == "pure" {
            read_methods.push(m);
        } else {
            methods.push(m);
        }
    }
    Ok(LoadedContract {
        address: checked_address(address)?,
        name: "Pasted".into(),
        label: String::new(),
        kaomoji: None,
        source: AbiSource::Pasted,
        methods,
        read_methods,
        proxy_impl: None,
    })
}

fn sample_parts(id: u64, owner: Address) -> SampleParts {
    let (token, pool) = sample_addresses();
    let usdc = known(Chain::Mainnet, token).unwrap();
    let aave = known(Chain::Mainnet, pool).unwrap();
    let (first, second) = sample_questions(&usdc, &aave, owner, id, true).unwrap();
    SampleParts {
        approve: answer_call(&first),
        supply: answer_call(&second),
        usdc: Some(usdc),
        aave: Some(aave),
    }
}

fn answer_call(q: &Question) -> Result<QueuedCall, String> {
    match q {
        Question::ContractCall { id, to, name, method, args, value } => {
            contract_call(*id, *to, name, method, args, value)
        }
        Question::RawCall { id, to, value, data } => raw_call(*id, to, value, data),
        other => panic!("no call is asked for: {other:?}"),
    }
}

/// The approvals of a list, each token and spender once.
fn approvals(calls: &[QueuedCall]) -> Vec<(Address, Vec<u8>)> {
    let mut out: Vec<(Address, Vec<u8>)> = Vec::new();
    for c in calls {
        if c.data.len() == 68 && c.data[..4] == [0x09, 0x5e, 0xa7, 0xb3] {
            let pair = (c.to, c.data[4..36].to_vec());
            if !out.contains(&pair) {
                out.push(pair);
            }
        }
    }
    out
}

fn wrap(calls: &[QueuedCall], id: u64) -> FlashWrap {
    let pairs = approvals(calls);
    let reset = |i: usize, (token, spender): &(Address, Vec<u8>)| QueuedCall {
        id: id + i as u64,
        to: *token,
        value: zero(),
        data: [&[0x09, 0x5e, 0xa7, 0xb3][..], spender, &[0u8; 32][..]].concat(),
        title: "reset".into(),
        detail: "allowance to zero".into(),
        signature: None,
        decoded_args: Vec::new(),
    };
    let mut all: Vec<QueuedCall> = pairs.iter().enumerate().map(|(i, p)| reset(i, p)).collect();
    all.extend(calls.iter().cloned());
    all.extend(pairs.iter().enumerate().map(|(i, p)| reset(pairs.len() + i, p)));
    FlashWrap { calls: all, opens: pairs.len() }
}

fn gate(version: Option<&str>) -> VersionGate {
    match version {
        Some("1.3.0") | Some("1.4.1") | None => VersionGate { unsignable: None, unroutable: None },
        Some(v) => VersionGate {
            unsignable: Some(format!("Safe version {v} is outside the signable range")),
            unroutable: None,
        },
    }
}

fn export(safe: Option<Address>, owner: Address, calls: &[QueuedCall]) -> String {
    let mut list = Vec::new();
    for c in calls {
        let mut t = serde_json::Map::new();
        t.insert("to".into(), text_of(c.to).into());
        t.insert("value".into(), c.value.lo.to_string().into());
        t.insert("data".into(), format!("0x{}", hex::encode(&c.data)).into());
        list.push(serde_json::Value::Object(t));
    }
    let mut meta = serde_json::Map::new();
    meta.insert("name".into(), "batch".into());
    meta.insert("from".into(), text_of(owner).into());
    if let Some(s) = safe {
        meta.insert("safe".into(), text_of(s).into());
    }
    let mut bundle = serde_json::Map::new();
    bundle.insert("version".into(), "1.0".into());
    bundle.insert("meta".into(), serde_json::Value::Object(meta));
    bundle.insert("transactions".into(), serde_json::Value::Array(list));
    serde_json::to_string_pretty(&serde_json::Value::Object(bundle)).unwrap()
}

fn import(text: &str, id: u64) -> Result<Vec<QueuedCall>, String> {
    let v: serde_json::Value = serde_json::from_str(text).map_err(|e| e.to_string())?;
    let mut out = Vec::new();
    for (i, t) in v["transactions"].as_array().ok_or("no transactions")?.iter().enumerate() {
        out.push(raw_call(
            id + i as u64,
            t["to"].as_str().unwrap_or_default(),
            t["value"].as_str().unwrap_or_default(),
            t["data"].as_str().unwrap_or_default(),
        )?);
    }
    Ok(out)
}

fn composed_as(text: &str) -> Option<Address> {
    let v: serde_json::Value = serde_json::from_str(text).ok()?;
    checked_address(v["meta"]["from"].as_str()?).ok()
}

fn template_of(name: &str, kaomoji: &str, owner: Address, calls: &[QueuedCall]) -> Template {
    Template {
        name: name.into(),
        kaomoji: kaomoji.into(),
        note: "saved".into(),
        call_count: calls.len(),
        from: Some(owner),
        bundle: export(None, owner, calls),
    }
}

fn nothing_found() -> Findings {
    Findings {
        address: Err("not asked".into()),
        known: None,
        pasted: Err("not asked".into()),
        recovered: None,
        read_args_valid: false,
        read_data: Err("not asked".into()),
        call: Err("not asked".into()),
        sample: SampleParts {
            usdc: None,
            aave: None,
            approve: Err("not asked".into()),
            supply: Err("not asked".into()),
        },
        wrap: FlashWrap { calls: Vec::new(), opens: 0 },
        gate: VersionGate { unsignable: None, unroutable: None },
        now: NOW,
        loaded_calls: Err("not asked".into()),
        composed_as: None,
        template: template_of("", "", eoa(), &[]),
        export: String::new(),
    }
}

fn find_call(f: &mut Findings, q: &Question) {
    if let Question::RawCall { to, .. } = q {
        f.address = checked_address(to);
    }
    if !matches!(q, Question::Nothing) {
        f.call = answer_call(q);
    }
}

/// Answers the question a message raises.
fn find_out(app: &TxBuilderApp, msg: &Message) -> Findings {
    let mut f = nothing_found();
    match app.question(msg) {
        Question::Nothing => {}
        Question::Address { text, chain } => {
            f.address = checked_address(&text);
            if let (Ok(a), Some(c)) = (&f.address, chain) {
                f.known = known(c, *a);
            }
        }
        Question::PastedAbi { address, abi } => {
            f.address = checked_address(&address);
            f.pasted = pasted(&address, &abi);
        }
        Question::ReadCall { method, args } => {
            f.read_args_valid = args_valid(&method, &args);
            f.read_data = encode_call(&method, &args);
        }
        Question::Sample { id, owner } => f.sample = sample_parts(id, owner),
        Question::Wrap { calls, id } => f.wrap = wrap(&calls, id),
        Question::Review { calls, id, safe_version } => {
            f.wrap = wrap(&calls, id);
            f.gate = gate(safe_version.as_deref());
        }
        Question::Single { call, safe_version } => {
            find_call(&mut f, &call);
            f.gate = gate(safe_version.as_deref());
        }
        Question::Export { safe, owner, calls, .. } => f.export = export(safe, owner, &calls),
        Question::Import { text, id, .. } => {
            f.loaded_calls = import(&text, id);
            f.composed_as = composed_as(&text);
        }
        Question::TemplateCalls { template, id, .. } => {
            f.loaded_calls = import(&template.bundle, id);
        }
        Question::NewTemplate { name, kaomoji, owner, calls, .. } => {
            f.template = template_of(&name, &kaomoji, owner, &calls);
        }
        call => find_call(&mut f, &call),
    }
    f
}

fn send(app: &mut TxBuilderApp, msg: Message) -> Option<Outcome> {
    let found = find_out(app, &msg);
    app.update(msg, found)
}

fn the_wrap(app: &TxBuilderApp) -> FlashWrap {
    wrap(&app.queue.batch, app.queue.next_id)
}

fn verdict(app: &TxBuilderApp) -> Preflight {
    app.preflight(NOW, the_wrap(app).opens)
}

fn compose_valid(app: &TxBuilderApp) -> bool {
    let args = match app.selected_method() {
        Some(m) => args_valid(m, &app.composer.args),
        None => false,
    };
    app.compose_valid(ComposeChecks {
        args,
        value: wei(&app.composer.value_input).is_ok(),
        raw_to: checked_address(&app.raw.to).is_ok(),
        raw_value: wei(&app.raw.value).is_ok(),
        raw_data: hex_data(&app.raw.data).is_ok(),
    })
}

fn read_valid(app: &TxBuilderApp) -> bool {
    match app.selected_read_method() {
        Some(m) => app.read_valid(args_valid(m, &app.reader.args)),
        None => false,
    }
}

/// Return data as a host hands it on: taken apart, and each number in words.
fn reply(app: &TxBuilderApp, bytes: Vec<u8>, verified: bool) -> ReadReply {
    let values = app.returned_values(&bytes).map(|v| {
        v.iter().map(|word| eth::U256::from_be_slice(word).to_string()).collect()
    });
    ReadReply { bytes, verified, values }
}

fn fill_sample(app: &mut TxBuilderApp) {
    let parts = sample_parts(app.queue.next_id, app.owner);
    let mut id = app.queue.next_id;
    app.queue.batch = sample_batch(&mut id, parts);
    app.queue.next_id = id;
}

fn fill_one(app: &mut TxBuilderApp) {
    fill_sample(app);
    app.queue.batch.truncate(1);
}

fn plain_call(id: u64, to: Address, data: Vec<u8>) -> QueuedCall {
    QueuedCall {
        id,
        to,
        value: zero(),
        data,
        title: "t".into(),
        detail: "d".into(),
        signature: None,
        decoded_args: Vec::new(),
    }
}

fn n_calls(n: u64) -> Vec<QueuedCall> {
    (0..n).map(|i| plain_call(i, repeat_address(0xC1), vec![0x01])).collect()
}

fn approve_calldata(spender: Address, amount: u64) -> Vec<u8> {
    let mut d = vec![0x09, 0x5e, 0xa7, 0xb3];
    d.extend(encode_word("address", &text_of(spender)).unwrap());
    d.extend(encode_word("uint256", &amount.to_string()).unwrap());
    d
}

fn simulated(outcome: BatchOutcome) -> BatchSimResult {
    BatchSimResult {
        outcome,
        gas_used: 41_000,
        transfers: Vec::new(),
        verified: true,
        base_fee_per_gas: 1,
        block: 21_000_000,
        block_gas_limit: 45_000_000,
    }
}

fn passed_clean() -> Preflight {
    Preflight::Passed { stale: false, verified: true }
}

fn safe_app() -> TxBuilderApp {
    let mut app = TxBuilderApp::new(safe());
    app.set_context(safe(), Chain::Mainnet, true, Some("1.4.1".into()), false, true, Vec::new());
    app
}

fn view_only_app() -> TxBuilderApp {
    let mut app = TxBuilderApp::new(eoa());
    app.set_context(eoa(), Chain::Mainnet, false, None, false, false, Vec::new());
    app
}

fn old_safe_app() -> TxBuilderApp {
    let mut app = TxBuilderApp::new(safe());
    app.set_context(safe(), Chain::Mainnet, true, Some("1.2.0".into()), false, true, Vec::new());
    app
}

fn eoa_app() -> TxBuilderApp {
    let mut app = TxBuilderApp::new(eoa());
    app.set_context(
        eoa(),
        Chain::Mainnet,
        false,
        None,
        true,
        true,
        vec![(11155111, "Sepolia".into())],
    );
    app
}

fn no_signer(app: &TxBuilderApp) -> Option<String> {
    app.no_signer_reason(&gate(app.ctx.safe_version.as_deref()))
}

/// Code that declares `transfer`.
fn transfer_code(implementation: Address) -> ResolvedCode {
    ResolvedCode { code: vec![0x60, 0x80, 0x60, 0x40], ..bare_code(implementation) }
}

/// Code from which nothing can be recovered.
fn bare_code(implementation: Address) -> ResolvedCode {
    ResolvedCode {
        code: Vec::new(),
        implementation,
        all_verified: true,
        nothing_deployed: false,
        code_verified: true,
        beacon: false,
    }
}

/// What is recovered from code: `transfer` from any, at the address it belongs
/// to.
fn recovered(code: &[u8], implementation: Address) -> Option<LoadedContract> {
    if code.is_empty() {
        return None;
    }
    Some(LoadedContract {
        address: implementation,
        name: "Contract".into(),
        label: String::new(),
        kaomoji: None,
        source: AbiSource::Bytecode,
        methods: vec![method("transfer", 0xa9059cbb, Vec::new(), Vec::new())],
        read_methods: Vec::new(),
        proxy_impl: None,
    })
}

/// Delivers the answer to a resolve, with what the pane asks about it.
fn resolved(app: &mut TxBuilderApp, seq: u64, result: Result<ResolvedCode, String>) {
    let found = match app.recovery_question(seq, &result) {
        Question::Recovery { code, implementation, .. } => recovered(&code, implementation),
        _ => None,
    };
    app.on_contract_resolved(seq, result, found);
}

/// Delivers an answer together with what could be recovered from it, asked for
/// or not.
fn resolved_unasked(app: &mut TxBuilderApp, seq: u64, r: ResolvedCode) {
    let found = recovered(&r.code, r.implementation);
    app.on_contract_resolved(seq, Ok(r), found);
}

fn simulate_seq(app: &mut TxBuilderApp) -> u64 {
    match send(app, Message::Simulate) {
        Some(Outcome::Simulate { seq, .. }) => seq,
        other => panic!("expected a Simulate, got {other:?}"),
    }
}

// ── the pane reports its own state machine ──────────────────────────

fn traced_by(app: &mut TxBuilderApp, msg: Message) -> Vec<&'static str> {
    let before = app.trace_snapshot();
    send(app, msg);
    before.changed_fields(&app.trace_snapshot())
}

#[test]
fn a_mode_switch_is_reported() {
    let mut app = safe_app();
    assert_eq!(traced_by(&mut app, Message::SetMode(Mode::Raw)), ["mode"]);
}

#[test]
fn typing_reports_nothing() {
    let mut app = safe_app();
    assert!(traced_by(&mut app, Message::AbiPasteChanged("[".into())).is_empty());
}

#[test]
fn clearing_the_queue_is_reported_with_its_cause() {
    let mut app = safe_app();
    fill_sample(&mut app);
    let before = app.trace_snapshot();
    assert_eq!(Message::ClearBatch.name(), "ClearBatch");
    send(&mut app, Message::ClearBatch);
    let after = app.trace_snapshot();
    let changes = before.changes(&after);
    let batch = changes.iter().find(|(what, ..)| *what == "batch").expect("the queue emptied");
    assert_eq!((batch.1.as_str(), batch.2.as_str()), ("2", "0"));
}

#[test]
fn an_async_verdict_is_reported_too() {
    let mut app = safe_app();
    fill_sample(&mut app);
    let seq = simulate_seq(&mut app);
    let before = app.trace_snapshot();
    app.on_sim(seq, Err("light client is still syncing".into()), NOW);
    let reported = before.changed_fields(&app.trace_snapshot());
    assert!(reported.contains(&"sim_busy"), "{reported:?}");
    assert!(reported.contains(&"sim_verdict"), "{reported:?}");
}

// ── the Safe version is read where it can still change the plan ─────

#[test]
fn a_signable_safe_version_blocks_nothing() {
    assert!(no_signer(&safe_app()).is_none());
}

#[test]
fn an_unsignable_safe_version_is_refused_before_anything_is_composed() {
    let app = old_safe_app();
    let why = no_signer(&app).expect("1.2.0 is outside the signable range");
    assert!(why.contains("1.2.0"), "name the version: {why}");
    assert!(why.contains("signable range"), "say what the problem is: {why}");
}

#[test]
fn an_unsignable_safe_version_never_reaches_the_review() {
    let mut app = old_safe_app();
    fill_sample(&mut app);
    assert!(send(&mut app, Message::Review).is_none());
    assert!(app.error.as_deref().is_some_and(|e| e.contains("1.2.0")));
}

#[test]
fn a_safe_with_no_known_version_is_refused_too() {
    let mut app = TxBuilderApp::new(safe());
    app.set_context(safe(), Chain::Mainnet, true, None, false, true, Vec::new());
    let why = no_signer(&app).expect("an unknown version blocks");
    assert!(why.contains("version"), "{why}");
}

#[test]
fn watch_only_still_reports_the_missing_key() {
    let why = no_signer(&view_only_app()).expect("no key");
    assert!(why.contains("watch-only"), "{why}");
}

// ── the export names the account that will execute ──────────────────

#[test]
fn the_exported_bundle_names_the_active_safe() {
    let mut app = safe_app();
    fill_sample(&mut app);
    send(&mut app, Message::OpenSave);
    let v: serde_json::Value =
        serde_json::from_str(&app.json.text).expect("the export is valid JSON");
    let named = v["meta"]["safe"].as_str().expect("meta.safe is stamped");
    assert_eq!(named.to_lowercase(), text_of(safe()).to_lowercase());
    assert_ne!(named.to_lowercase(), text_of(eoa()).to_lowercase());
}

#[test]
fn an_eoa_export_stamps_no_safe() {
    let mut app = eoa_app();
    fill_sample(&mut app);
    send(&mut app, Message::OpenSave);
    let v: serde_json::Value = serde_json::from_str(&app.json.text).expect("valid JSON");
    assert!(v["meta"].get("safe").is_none(), "no Safe was active: {}", app.json.text);
}

// ── the preflight box states what it did not model ──────────────────

#[test]
fn a_safe_batch_names_the_wrapper_and_the_guard() {
    let mut app = safe_app();
    fill_sample(&mut app);
    let spots = app.sim_blind_spots(&the_wrap(&app)).join(" | ");
    assert!(spots.contains("execTransaction"), "{spots}");
    assert!(spots.contains("guard"), "{spots}");
    assert!(spots.contains("tx.origin"), "{spots}");
    assert!(spots.contains("transient storage"), "{spots}");
}

#[test]
fn an_eoa_batch_names_the_delegation_and_not_the_wrapper() {
    let mut app = eoa_app();
    fill_sample(&mut app);
    let spots = app.sim_blind_spots(&the_wrap(&app)).join(" | ");
    assert!(spots.contains("delegation designator"), "{spots}");
    assert!(!spots.contains("execTransaction"), "{spots}");
    assert!(!spots.contains("tx.origin"), "{spots}");
}

#[test]
fn a_single_eoa_call_has_nothing_to_caveat() {
    let mut app = eoa_app();
    fill_one(&mut app);
    assert!(app.sim_blind_spots(&the_wrap(&app)).is_empty());
}

// ── a simulator failure is a reason ─────────────────────────────────

#[test]
fn a_failed_simulation_carries_its_reason_to_the_review() {
    let mut app = safe_app();
    fill_sample(&mut app);
    let seq = simulate_seq(&mut app);
    app.on_sim(seq, Err("light client is still syncing".into()), NOW);
    let Preflight::Errored { reason } = verdict(&app) else {
        panic!("expected Errored, got {:?}", verdict(&app));
    };
    assert_eq!(reason, "light client is still syncing");
    let w = verdict(&app).warning().expect("a warning");
    assert!(w.contains("light client is still syncing"), "{w}");
    assert!(!w.contains("Go back and run the preflight"), "{w}");
    assert!(verdict(&app).softens_confirm());
    assert!(!app.sim.busy, "the spinner has to come down either way");
}

#[test]
fn a_batch_too_big_for_a_block_never_reads_as_a_pass() {
    let mut app = safe_app();
    fill_sample(&mut app);
    let seq = simulate_seq(&mut app);
    app.on_sim(
        seq,
        Ok(BatchSimResult {
            gas_used: 125_000_000,
            ..simulated(BatchOutcome::Success)
        }),
        NOW,
    );
    let p = verdict(&app);
    assert_eq!(
        p,
        Preflight::TooMuchGas { gas_used: 125_000_000, block_gas_limit: 45_000_000 },
    );
    assert!(p.softens_confirm(), "this must not confirm as routine");
    let w = p.warning().expect("the user has to be told why");
    assert!(w.contains("block gas limit"), "{w}");
    assert!(w.contains("Split it"), "and what to do about it: {w}");
}

// ── a pass is only as good as when it was taken ─────────────────────

#[test]
fn a_pass_over_unverified_state_does_not_read_as_routine() {
    let mut app = safe_app();
    fill_sample(&mut app);
    let seq = simulate_seq(&mut app);
    app.on_sim(
        seq,
        Ok(BatchSimResult {
            gas_used: 1,
            verified: false,
            ..simulated(BatchOutcome::Success)
        }),
        NOW,
    );
    let p = verdict(&app);
    assert_eq!(p, Preflight::Passed { stale: false, verified: false });
    assert!(p.softens_confirm(), "an unverified pass is not a clean pass");
    assert!(p.warning().unwrap().contains("light-client-verified"));
}

#[test]
fn a_pass_goes_stale_on_the_clock() {
    let mut app = safe_app();
    fill_sample(&mut app);
    let seq = simulate_seq(&mut app);
    app.on_sim(
        seq,
        Ok(BatchSimResult { gas_used: 1, ..simulated(BatchOutcome::Success) }),
        NOW,
    );
    assert_eq!(verdict(&app), passed_clean(), "fresh out of the simulator");
    app.sim.at = Some(NOW - PREFLIGHT_STALE_AFTER);
    let p = verdict(&app);
    assert_eq!(p, Preflight::Passed { stale: true, verified: true });
    assert!(p.softens_confirm());
    assert!(p.warning().unwrap().contains("moved on since it ran"));
}

// ── a failed fetch is not a missing ABI ─────────────────────────────

#[test]
fn a_failed_resolve_is_reported_as_a_failed_resolve() {
    let mut app = safe_app();
    let Some(Outcome::ResolveContract { seq, .. }) =
        send(&mut app, Message::AddrChanged(text_of(eoa())))
    else {
        panic!("expected a ResolveContract");
    };
    resolved(&mut app, seq, Err("light client timed out".into()));
    assert_eq!(app.composer.resolve_error.as_deref(), Some("light client timed out"));
    assert!(!app.composer.not_found);
}

#[test]
fn a_failed_resolve_can_be_retried() {
    let mut app = safe_app();
    let Some(Outcome::ResolveContract { seq, .. }) =
        send(&mut app, Message::AddrChanged(text_of(eoa())))
    else {
        panic!("expected a ResolveContract");
    };
    resolved(&mut app, seq, Err("light client timed out".into()));
    let Some(Outcome::ResolveContract { seq: seq2, address, .. }) =
        send(&mut app, Message::RetryResolve)
    else {
        panic!("Retry must re-issue the fetch");
    };
    assert_eq!(address, eoa());
    assert_ne!(seq2, seq, "the retired attempt must not answer for this one");
    assert!(app.composer.resolving);
    assert!(app.composer.resolve_error.is_none());
}

// ── the batching cap applies however the queue is filled ────────────

fn bundle_json(calls: usize) -> String {
    let one = format!(r#"{{"to":"{DEAD}","value":"0","data":"0x"}}"#);
    let list = vec![one; calls].join(",");
    format!(
        r#"{{"version":"1.0","chainId":"1","meta":{{"name":"x","txBuilderVersion":"y"}},
             "transactions":[{list}]}}"#
    )
}

#[test]
fn import_respects_the_single_call_cap() {
    let mut app = TxBuilderApp::new(eoa());
    app.set_context(eoa(), Chain::Mainnet, false, None, false, true, Vec::new());
    send(&mut app, Message::OpenLoad);
    send(&mut app, Message::JsonChanged(bundle_json(2)));
    send(&mut app, Message::ImportJson);
    assert!(app.queue.batch.is_empty(), "the cap has to bite before the queue");
    let e = app.json.error.as_deref().expect("and say why");
    assert!(e.contains("one at a time"), "{e}");
    assert_eq!(app.json.modal, Modal::Load);
}

#[test]
fn replacing_a_non_empty_queue_says_so() {
    let mut app = safe_app();
    fill_sample(&mut app);
    let had = app.queue.batch.len();
    app.json.text = bundle_json(1);
    send(&mut app, Message::ImportJson);
    assert_eq!(app.queue.batch.len(), 1);
    let e = app.error.as_deref().expect("a replaced queue is not undoable");
    assert!(e.contains(&format!("{had} call")), "{e}");
}

// ── a watch-only account never reaches a ceremony ───────────────────

#[test]
fn a_watch_only_account_cannot_open_the_review() {
    let mut app = view_only_app();
    fill_one(&mut app);
    assert!(send(&mut app, Message::Review).is_none());
    let e = app.error.as_deref().expect("and it must say why");
    assert!(e.contains("watch-only"), "{e}");
}

#[test]
fn a_watch_only_account_can_still_compose_and_simulate() {
    let mut app = view_only_app();
    fill_one(&mut app);
    assert!(matches!(send(&mut app, Message::Simulate), Some(Outcome::Simulate { .. })));
}

// ── Esc belongs to the overlay while one is open ────────────────────

#[test]
fn escape_closes_the_json_modal_instead_of_the_app() {
    let mut app = safe_app();
    fill_sample(&mut app);
    send(&mut app, Message::OpenSave);
    assert_eq!(app.json.modal, Modal::Save);
    assert!(send(&mut app, Message::Escape).is_none());
    assert_eq!(app.json.modal, Modal::Closed);
    assert!(app.json.text.is_empty(), "and the overlay's contents go with it");
    assert!(matches!(send(&mut app, Message::Escape), Some(Outcome::Close)));
}

#[test]
fn closing_the_modal_actually_clears_it() {
    let mut app = safe_app();
    fill_sample(&mut app);
    send(&mut app, Message::OpenSave);
    send(&mut app, Message::CloseModal);
    assert_eq!(app.json.modal, Modal::Closed);
}

// ── a persist that fails has something to roll back to ──────────────

#[test]
fn persisting_templates_carries_the_pre_change_list() {
    let mut app = safe_app();
    fill_sample(&mut app);
    send(&mut app, Message::SaveTemplate);
    let Some(Outcome::PersistTemplates { list, rollback }) =
        send(&mut app, Message::SaveTemplate)
    else {
        panic!("expected a PersistTemplates");
    };
    assert_eq!(list.len(), 2);
    assert_eq!(rollback.len(), 1);
}

// ── a broadcast is not an outcome ───────────────────────────────────

#[test]
fn a_mined_batch_clears_the_queue_and_leaves_its_hash() {
    let mut app = safe_app();
    fill_sample(&mut app);
    let hash = repeat_hash(0x7A);
    app.on_executed(hash);
    assert!(app.queue.batch.is_empty());
    assert_eq!(app.visible_settled(), Some(Settled::Executed { hash }));
    match send(&mut app, Message::CopySettledHash) {
        Some(Outcome::CopyPlain(text)) => assert_eq!(text, format!("0x{}", "7a".repeat(32))),
        other => panic!("expected CopyPlain, got {other:?}"),
    }
}

#[test]
fn a_proposed_batch_says_queued_rather_than_done() {
    let mut app = safe_app();
    fill_sample(&mut app);
    app.on_proposed(7);
    assert!(app.queue.batch.is_empty());
    assert_eq!(app.visible_settled(), Some(Settled::Proposed { nonce: 7 }));
    assert!(send(&mut app, Message::CopySettledHash).is_none());
}

#[test]
fn known_address_loads_contract_synchronously_and_still_fetches() {
    let mut app = safe_app();
    let out = send(&mut app, Message::AddrChanged(text_of(usdc())));
    assert!(app.composer.loaded.is_some());
    assert_eq!(app.composer.loaded.as_ref().unwrap().name, "USDC");
    assert!(!app.composer.resolving, "nothing to wait for — the menu is usable");
    assert!(matches!(out, Some(Outcome::ResolveContract { .. })));
}

#[test]
fn recovered_methods_fill_in_a_curated_contract_without_displacing_it() {
    let mut app = safe_app();
    send(&mut app, Message::AddrChanged(text_of(usdc())));
    let curated = app.composer.loaded.clone().expect("curated USDC");
    let before = curated.methods.len();
    let kept = curated.methods[0].clone();
    let extra = AbiMethod {
        name: "increaseAllowance".into(),
        inputs: Vec::new(),
        outputs: Vec::new(),
        payable: false,
        selector: 0x39509351,
        signature: "increaseAllowance(address,uint256)".into(),
        provenance: MethodProvenance::SelectorOnly,
    };
    let collision = AbiMethod {
        name: "not_the_declared_name".into(),
        selector: kept.selector,
        ..extra.clone()
    };
    let recovered = LoadedContract {
        methods: vec![collision, extra],
        source: AbiSource::Bytecode,
        ..curated.clone()
    };
    let merged = merge_recovered(curated, recovered);
    assert_eq!(merged.methods.len(), before + 1);
    assert_eq!(merged.methods[0].name, kept.name);
    assert!(merged.methods.iter().any(|m| m.name == "increaseAllowance"));
    assert_eq!(merged.source, AbiSource::Known, "still the curated contract");
}

#[test]
fn unknown_address_bubbles_resolve() {
    let mut app = safe_app();
    match send(&mut app, Message::AddrChanged(text_of(addr(COFFEE)))) {
        Some(Outcome::ResolveContract { address, .. }) => assert_eq!(address, addr(COFFEE)),
        other => panic!("expected ResolveContract, got {other:?}"),
    }
    assert!(app.composer.resolving);
}

#[test]
fn add_to_batch_queues_a_call_and_resets_args() {
    let mut app = safe_app();
    send(&mut app, Message::AddrChanged(text_of(usdc())));
    send(&mut app, Message::ArgChanged(0, text_of(addr(DEAD))));
    send(&mut app, Message::ArgChanged(1, "1000000".into()));
    assert!(compose_valid(&app));
    send(&mut app, Message::AddToBatch);
    assert_eq!(app.queue.batch.len(), 1);
    assert!(app.composer.args.iter().all(|a| a.is_empty()));
    assert!(app.composer.loaded.is_some());
}

fn add_transfer(app: &mut TxBuilderApp, amount: &str) {
    send(app, Message::ArgChanged(0, text_of(addr(DEAD))));
    send(app, Message::ArgChanged(1, amount.into()));
    send(app, Message::AddToBatch);
}

#[test]
fn eoa_without_7702_caps_batch_at_one() {
    let mut app = TxBuilderApp::new(eoa());
    app.set_context(eoa(), Chain::Mainnet, false, None, false, true, Vec::new());
    send(&mut app, Message::AddrChanged(text_of(usdc())));
    add_transfer(&mut app, "1");
    assert_eq!(app.queue.batch.len(), 1);
    add_transfer(&mut app, "2");
    assert_eq!(app.queue.batch.len(), 1, "non-7702 EOA batch stays capped at 1");
    assert!(app.error.is_some());
}

#[test]
fn eoa_with_7702_can_batch_multiple() {
    let mut app = TxBuilderApp::new(eoa());
    app.set_context(eoa(), Chain::Mainnet, false, None, true, true, Vec::new());
    send(&mut app, Message::AddrChanged(text_of(usdc())));
    add_transfer(&mut app, "1");
    add_transfer(&mut app, "2");
    assert_eq!(app.queue.batch.len(), 2, "7702-capable EOA batches N calls");
    assert!(app.error.is_none());
}

#[test]
fn auto_revoke_wraps_effective_calls_at_both_ends() {
    let c = known(Chain::Mainnet, usdc()).unwrap();
    let approve = c.methods.iter().find(|m| m.name == "approve").unwrap();
    let approve_call =
        contract_call(1, usdc(), "USDC", approve, &[text_of(aave()), "5000".into()], "0").unwrap();
    let mut app = safe_app();
    app.queue.batch = vec![approve_call];
    app.queue.next_id = 2;
    assert_eq!(app.effective_calls(&the_wrap(&app)).len(), 1);
    app.queue.auto_revoke = true;
    let eff = app.effective_calls(&the_wrap(&app));
    assert_eq!(eff.len(), 3);
    for i in [0, 2] {
        assert_eq!(eff[i].to, usdc());
        assert_eq!(eth::U256::from_be_slice(&eff[i].data[36..68]), eth::U256::ZERO);
    }
    assert_eq!(eth::U256::from_be_slice(&eff[1].data[36..68]), eth::U256::from(5000u64));
    assert_eq!(app.queue.batch.len(), 1);
    app.set_context(eoa(), Chain::Mainnet, false, None, false, true, Vec::new());
    assert!(app.queue.batch.is_empty(), "the identity switch drops the batch");
    app.queue.batch = vec![eff[1].clone()];
    assert_eq!(app.effective_calls(&the_wrap(&app)).len(), 1, "no batching → no wrap");
}

#[test]
fn a_failing_step_is_named_in_the_queues_own_numbering() {
    let mut app = safe_app();
    fill_sample(&mut app);
    let queued = app.queue.batch.len();
    assert!(queued >= 2, "sample batch is worth indexing into");
    let opens = the_wrap(&app).opens;
    assert_eq!(app.describe_step(0, opens), "call #1");
    assert_eq!(app.describe_step(queued - 1, opens), format!("call #{queued}"));
    app.queue.auto_revoke = true;
    assert!(opens > 0, "the sample batch approves something");
    assert!(app.describe_step(0, opens).contains("before the batch"));
    assert_eq!(app.describe_step(opens, opens), "call #1");
    assert_eq!(app.describe_step(opens + queued - 1, opens), format!("call #{queued}"));
    assert!(app.describe_step(opens + queued, opens).contains("after the batch"));
}

#[test]
fn reorder_and_remove() {
    let mut app = safe_app();
    fill_sample(&mut app);
    assert_eq!(app.queue.batch.len(), 2);
    let first = app.queue.batch[0].id;
    let second = app.queue.batch[1].id;
    send(&mut app, Message::MoveDown(first));
    assert_eq!(app.queue.batch[0].id, second);
    send(&mut app, Message::RemoveCall(second));
    assert_eq!(app.queue.batch.len(), 1);
    assert_eq!(app.queue.batch[0].id, first);
}

#[test]
fn simulate_bubbles_and_review_bubbles() {
    let mut app = safe_app();
    fill_sample(&mut app);
    match send(&mut app, Message::Simulate) {
        Some(Outcome::Simulate { calls, .. }) => assert_eq!(calls.len(), 2),
        other => panic!("expected Simulate, got {other:?}"),
    }
    assert!(app.sim.busy);
    match send(&mut app, Message::Review) {
        Some(Outcome::Review { calls, preflight, .. }) => {
            assert_eq!(calls.len(), 2);
            assert_eq!(preflight, Preflight::Missing);
        }
        other => panic!("expected Review, got {other:?}"),
    }
}

fn review_preflight(app: &mut TxBuilderApp) -> Preflight {
    match send(app, Message::Review) {
        Some(Outcome::Review { preflight, .. }) => preflight,
        other => panic!("expected Review, got {other:?}"),
    }
}

#[test]
fn review_carries_a_failing_preflight_across_to_the_overlay() {
    let mut app = safe_app();
    fill_sample(&mut app);
    app.on_sim(
        app.sim.seq,
        Ok(simulated(BatchOutcome::Revert {
            step: 1,
            reason: "ERC20: transfer amount exceeds balance".into(),
        })),
        NOW,
    );
    let preflight = review_preflight(&mut app);
    assert_eq!(
        preflight,
        Preflight::Fails {
            at: "call #2".to_string(),
            reason: "ERC20: transfer amount exceeds balance".into(),
        },
    );
    assert!(preflight.softens_confirm(), "the button must say so");
    let w = preflight.warning().expect("a warning line");
    assert!(w.contains("call #2"), "{w}");
    assert!(w.contains("exceeds balance"), "{w}");
}

#[test]
fn review_reports_a_passing_preflight_without_softening() {
    let mut app = safe_app();
    fill_sample(&mut app);
    app.on_sim(app.sim.seq, Ok(simulated(BatchOutcome::Success)), NOW);
    let preflight = review_preflight(&mut app);
    assert_eq!(preflight, passed_clean());
    assert!(!preflight.softens_confirm());
    assert!(preflight.warning().is_none(), "nothing to warn about");
}

#[test]
fn editing_the_batch_downgrades_a_passing_preflight_to_missing() {
    let mut app = safe_app();
    fill_sample(&mut app);
    app.on_sim(app.sim.seq, Ok(simulated(BatchOutcome::Success)), NOW);
    let removed = app.queue.batch[0].id;
    send(&mut app, Message::RemoveCall(removed));
    let preflight = review_preflight(&mut app);
    assert_eq!(preflight, Preflight::Missing);
    assert!(preflight.softens_confirm());
}

#[test]
fn stale_resolve_is_dropped() {
    let mut app = safe_app();
    send(&mut app, Message::AddrChanged(text_of(addr(COFFEE))));
    let stale_seq = app.composer.resolve_seq;
    send(&mut app, Message::AddrChanged(text_of(addr(BEEF))));
    resolved_unasked(&mut app, stale_seq, bare_code(addr(COFFEE)));
    assert!(!app.composer.not_found, "stale resolve result ignored");
    assert_eq!(app.composer.resolve_target, Some(addr(BEEF)));
}

#[test]
fn a_curated_hit_retires_an_in_flight_resolve() {
    let mut app = eoa_app();
    send(&mut app, Message::AddrChanged(text_of(addr(COFFEE))));
    let stale_seq = app.composer.resolve_seq;
    assert!(app.composer.resolving);
    send(&mut app, Message::AddrChanged(text_of(usdc())));
    let curated_methods = app.composer.loaded.as_ref().expect("USDC loaded").methods.len();
    resolved_unasked(&mut app, stale_seq, transfer_code(addr(COFFEE)));
    let c = app.composer.loaded.as_ref().expect("still USDC");
    assert_eq!(c.address, usdc(), "call target unchanged");
    assert_eq!(c.source, AbiSource::Known, "curated ABI not displaced");
    assert_eq!(c.methods.len(), curated_methods);
}

#[test]
fn a_pasted_abi_retires_an_in_flight_resolve() {
    let mut app = eoa_app();
    send(&mut app, Message::AddrChanged(text_of(addr(COFFEE))));
    let stale_seq = app.composer.resolve_seq;
    send(&mut app, Message::ShowAbiPaste);
    send(
        &mut app,
        Message::AbiPasteChanged(
            r#"[{"type":"function","name":"stake","stateMutability":"nonpayable",
                 "inputs":[],"outputs":[]}]"#
                .into(),
        ),
    );
    send(&mut app, Message::LoadPastedAbi);
    assert_eq!(app.composer.loaded.as_ref().unwrap().source, AbiSource::Pasted);
    resolved_unasked(&mut app, stale_seq, transfer_code(addr(COFFEE)));
    let c = app.composer.loaded.as_ref().expect("still the pasted ABI");
    assert_eq!(c.source, AbiSource::Pasted, "bytecode must not displace it");
    assert!(c.methods.iter().any(|m| m.name == "stake"));
}

#[test]
fn proxy_load_keeps_the_proxy_as_the_call_target() {
    let mut app = safe_app();
    send(&mut app, Message::AddrChanged(text_of(addr(COFFEE))));
    let seq = app.composer.resolve_seq;
    resolved(&mut app, seq, Ok(transfer_code(addr(BEEF))));
    let loaded = app.composer.loaded.as_ref().expect("proxy ABI loaded");
    assert_eq!(loaded.address, addr(COFFEE));
    assert_eq!(loaded.proxy_impl, Some(addr(BEEF)));
    assert!(!app.composer.proxy_unverified);
}

#[test]
fn a_resolve_asks_what_the_code_makes_of_the_target() {
    let mut app = safe_app();
    send(&mut app, Message::AddrChanged(text_of(addr(COFFEE))));
    let seq = app.composer.resolve_seq;
    let r = ResolvedCode { code_verified: false, ..transfer_code(addr(BEEF)) };
    let Question::Recovery { code, address, implementation, code_verified } =
        app.recovery_question(seq, &Ok(r.clone()))
    else {
        panic!("expected a recovery");
    };
    assert_eq!(code, r.code);
    assert_eq!(address, addr(COFFEE), "the address asked about, not the implementation");
    assert_eq!(implementation, addr(BEEF));
    assert!(!code_verified);
    assert!(matches!(app.recovery_question(seq + 1, &Ok(r)), Question::Nothing));
    assert!(matches!(app.recovery_question(seq, &Err("down".into())), Question::Nothing));
}

#[test]
fn recovered_code_of_the_target_itself_names_no_implementation() {
    let mut app = safe_app();
    send(&mut app, Message::AddrChanged(text_of(addr(COFFEE))));
    let seq = app.composer.resolve_seq;
    resolved(&mut app, seq, Ok(transfer_code(addr(COFFEE))));
    let loaded = app.composer.loaded.as_ref().expect("loaded");
    assert_eq!(loaded.address, addr(COFFEE));
    assert_eq!(loaded.proxy_impl, None);
    assert_eq!(loaded.source, AbiSource::Bytecode);
}

#[test]
fn an_answer_behind_a_proxy_leaves_a_curated_contract_where_it_is() {
    let mut app = safe_app();
    send(&mut app, Message::AddrChanged(text_of(usdc())));
    let seq = app.composer.resolve_seq;
    resolved(&mut app, seq, Ok(transfer_code(addr(BEEF))));
    let loaded = app.composer.loaded.as_ref().expect("USDC");
    assert_eq!(loaded.address, usdc());
    assert_eq!(loaded.source, AbiSource::Known);
    assert_eq!(app.composer.resolve_target, Some(usdc()));
}

#[test]
fn a_declared_contract_is_shown_at_the_typed_address() {
    let mut app = safe_app();
    let mut found = nothing_found();
    found.address = Ok(addr(COFFEE));
    found.known = known(Chain::Mainnet, usdc());
    app.update(Message::AddrChanged(COFFEE.into()), found);
    assert_eq!(app.composer.loaded.as_ref().unwrap().address, addr(COFFEE));
    assert_eq!(app.composer.resolve_target, Some(addr(COFFEE)));
}

#[test]
fn a_late_answer_is_dropped_whatever_came_in_between() {
    let between: [fn(&mut TxBuilderApp); 5] = [
        |app| {
            send(app, Message::AddrChanged("0x12".into()));
        },
        |app| {
            send(app, Message::AddrChanged(text_of(addr(BEEF))));
            send(app, Message::AddrChanged(text_of(addr(COFFEE))));
        },
        |app| {
            send(app, Message::RetryResolve);
        },
        |app| {
            send(app, Message::SetNetwork(NetworkId::Builtin(Chain::Base)));
            send(app, Message::SetNetwork(NetworkId::Builtin(Chain::Mainnet)));
        },
        |app| {
            app.set_context(safe(), Chain::Mainnet, false, None, true, true, Vec::new());
        },
    ];
    for happens in between {
        let mut app = eoa_app();
        send(&mut app, Message::AddrChanged(text_of(addr(COFFEE))));
        let seq = app.composer.resolve_seq;
        happens(&mut app);
        let before = format!("{app:?}");
        resolved_unasked(&mut app, seq, transfer_code(addr(COFFEE)));
        assert_eq!(format!("{app:?}"), before);
    }
}

#[test]
fn a_beacon_caution_does_not_follow_to_another_address() {
    let mut app = safe_app();
    send(&mut app, Message::AddrChanged(text_of(addr(COFFEE))));
    let seq = app.composer.resolve_seq;
    resolved(&mut app, seq, Ok(ResolvedCode { beacon: true, ..bare_code(addr(COFFEE)) }));
    assert!(app.composer.proxy_beacon);
    send(&mut app, Message::AddrChanged(text_of(addr(BEEF))));
    assert!(!app.composer.proxy_beacon);
}

#[test]
fn a_mixed_case_address_failing_its_checksum_never_resolves() {
    let mut app = safe_app();
    let out = send(
        &mut app,
        Message::AddrChanged("0xa0b86991c6218b36c1d19D4a2e9Eb0cE3606eB48".into()),
    );
    assert!(out.is_none(), "no fetch may be issued for a bad checksum");
    assert!(app.composer.loaded.is_none());
    assert!(app.composer.resolve_target.is_none());
    let err = app.composer.addr_error.as_deref().expect("refusal must be visible");
    assert!(err.contains("EIP-55"), "unexpected reason: {err}");
}

#[test]
fn a_half_typed_address_is_not_corrected_mid_word() {
    let mut app = safe_app();
    send(&mut app, Message::AddrChanged("0xA0b8699".into()));
    assert!(app.composer.addr_error.is_none());
    send(&mut app, Message::AddrChanged(format!("0x{}", "z".repeat(40))));
    assert!(app.composer.addr_error.is_some());
    send(
        &mut app,
        Message::AddrChanged("0xA0b86991c6218b36c1d19D4a2e9Eb0cE3606eB48".into()),
    );
    assert!(app.composer.addr_error.is_none());
}

fn unverified_proxy(app: &mut TxBuilderApp) {
    send(app, Message::AddrChanged(text_of(addr(COFFEE))));
    let seq = app.composer.resolve_seq;
    resolved(app, seq, Ok(ResolvedCode { all_verified: false, ..bare_code(addr(COFFEE)) }));
}

#[test]
fn unverified_proxy_slot_raises_the_caution() {
    let mut app = safe_app();
    unverified_proxy(&mut app);
    assert!(app.composer.not_found);
    assert!(app.composer.proxy_unverified);
}

#[test]
fn pasted_abi_retires_the_proxy_caution() {
    let mut app = safe_app();
    unverified_proxy(&mut app);
    assert!(app.composer.proxy_unverified);
    send(
        &mut app,
        Message::AbiPasteChanged(
            r#"[{"type":"function","name":"transfer","stateMutability":"nonpayable",
                "inputs":[{"name":"to","type":"address"},{"name":"amount","type":"uint256"}]}]"#
                .into(),
        ),
    );
    send(&mut app, Message::LoadPastedAbi);
    assert!(app.composer.loaded.is_some(), "pasted ABI loaded");
    assert!(!app.composer.proxy_unverified);
}

#[test]
fn retyping_the_address_clears_the_proxy_caution() {
    let mut app = safe_app();
    unverified_proxy(&mut app);
    assert!(app.composer.proxy_unverified);
    send(&mut app, Message::AddrChanged(text_of(addr(BEEF))));
    assert!(!app.composer.proxy_unverified);
}

// ── the network switcher ────────────────────────────────────────────

#[test]
fn eoa_can_switch_builtin_network() {
    let mut app = eoa_app();
    assert_eq!(app.selected_net(), NetworkId::Builtin(Chain::Mainnet));
    send(&mut app, Message::SetNetwork(NetworkId::Builtin(Chain::Base)));
    assert_eq!(app.selected_net(), NetworkId::Builtin(Chain::Base));
    assert!(app.batch_layout(), "built-in nets keep the batch layout");
}

#[test]
fn switching_builtin_networks_drops_the_batch() {
    let mut app = eoa_app();
    fill_sample(&mut app);
    app.queue.expanded = Some(app.queue.batch[0].id);
    assert_eq!(app.queue.batch.len(), 2);
    send(&mut app, Message::SetNetwork(NetworkId::Builtin(Chain::Base)));
    assert!(app.queue.batch.is_empty(), "queue must not survive a chain change");
    assert!(app.queue.expanded.is_none());
    let note = app.error.as_deref().unwrap_or_default();
    assert!(note.contains("Ethereum Mainnet"), "notice names the origin chain: {note}");
    assert!(note.contains("Base"), "notice names the destination chain: {note}");
}

fn select_safe(app: &mut TxBuilderApp, identity: Address, chain: Chain) {
    app.set_context(identity, chain, true, Some("1.4.1".into()), false, true, Vec::new());
}

#[test]
fn safe_pinning_a_different_chain_drops_the_batch() {
    let mut app = eoa_app();
    fill_sample(&mut app);
    select_safe(&mut app, safe(), Chain::Base);
    assert_eq!(app.selected_net(), NetworkId::Builtin(Chain::Base));
    assert!(app.queue.batch.is_empty(), "an implicit re-pin drops the queue too");
}

#[test]
fn switching_identity_on_the_same_chain_drops_the_batch() {
    let mut app = eoa_app();
    fill_sample(&mut app);
    assert!(!app.queue.batch.is_empty());
    select_safe(&mut app, safe(), Chain::Mainnet);
    assert_eq!(app.selected_net(), NetworkId::Builtin(Chain::Mainnet));
    assert!(app.queue.batch.is_empty(), "the identity did, so the queue drops");
    let e = app.error.clone().expect("the drop is explained");
    assert!(e.contains("different account's balances"), "{e}");
}

#[test]
fn an_identity_and_network_switch_together_still_explains_the_drop() {
    let mut app = eoa_app();
    fill_sample(&mut app);
    select_safe(&mut app, safe(), Chain::Base);
    assert_eq!(app.selected_net(), NetworkId::Builtin(Chain::Base));
    assert!(app.queue.batch.is_empty());
    let e = app.error.clone().expect("the drop must still be explained");
    assert!(e.contains("different account's balances"), "{e}");
}

#[test]
fn switching_between_safes_drops_the_batch() {
    let mut app = safe_app();
    fill_sample(&mut app);
    let other = addr("0xB0B0B0B0B0B0B0B0B0B0B0B0B0B0B0B0B0B0B0B0");
    select_safe(&mut app, other, Chain::Mainnet);
    assert!(app.queue.batch.is_empty());
    assert_eq!(app.owner, other, "the identity chip follows the active Safe");
}

#[test]
fn an_unchanged_context_refresh_keeps_the_batch() {
    let mut app = eoa_app();
    fill_sample(&mut app);
    let n = app.queue.batch.len();
    for _ in 0..3 {
        app.set_context(
            eoa(),
            Chain::Mainnet,
            false,
            None,
            true,
            true,
            vec![(11155111, "Sepolia".into())],
        );
    }
    assert_eq!(app.queue.batch.len(), n);
    assert!(app.error.is_none());
}

#[test]
fn a_superseded_simulation_result_is_dropped() {
    let mut app = safe_app();
    fill_sample(&mut app);
    let seq = simulate_seq(&mut app);
    assert!(app.sim.busy);
    let victim = app.queue.batch[0].id;
    send(&mut app, Message::RemoveCall(victim));
    app.on_sim(
        seq,
        Ok(BatchSimResult { base_fee_per_gas: 0, ..simulated(BatchOutcome::Success) }),
        NOW,
    );
    assert!(app.sim.result.is_none(), "a stale verdict must not be adopted");
    assert_eq!(verdict(&app), Preflight::Missing);
}

#[test]
fn a_current_simulation_result_is_kept() {
    let mut app = safe_app();
    fill_sample(&mut app);
    let seq = simulate_seq(&mut app);
    app.on_sim(
        seq,
        Ok(BatchSimResult { base_fee_per_gas: 0, ..simulated(BatchOutcome::Success) }),
        NOW,
    );
    assert_eq!(verdict(&app), passed_clean());
    assert!(!app.sim.busy);
}

#[test]
fn switching_networks_with_an_empty_queue_retires_the_old_banner() {
    let mut app = eoa_app();
    app.error = Some("atomic batching needs a software key or a Ledger".into());
    send(&mut app, Message::SetNetwork(NetworkId::Builtin(Chain::Base)));
    assert!(app.error.is_none());
}

#[test]
fn safe_pins_network_and_ignores_switch() {
    let mut app = TxBuilderApp::new(safe());
    select_safe(&mut app, safe(), Chain::Base);
    assert_eq!(app.selected_net(), NetworkId::Builtin(Chain::Base));
    send(&mut app, Message::ToggleNetworkMenu);
    assert!(!app.net_menu_open, "Safe never opens the switcher");
    send(&mut app, Message::SetNetwork(NetworkId::Builtin(Chain::Optimism)));
    select_safe(&mut app, safe(), Chain::Base);
    assert_eq!(app.selected_net(), NetworkId::Builtin(Chain::Base));
}

#[test]
fn custom_network_hides_batch_and_single_sends() {
    let mut app = eoa_app();
    send(&mut app, Message::SetNetwork(NetworkId::Custom(11155111)));
    assert!(app.is_custom());
    assert!(!app.batch_layout(), "custom nets drop the batch UI");
    send(&mut app, Message::SetMode(Mode::Raw));
    send(&mut app, Message::RawToChanged(text_of(addr(DEAD))));
    match send(&mut app, Message::SendSingle) {
        Some(Outcome::Review { calls, preflight, .. }) => {
            assert_eq!(calls.len(), 1);
            assert_eq!(preflight, Preflight::Unsupported, "no simulator on a custom net");
        }
        other => panic!("expected single-call Review, got {other:?}"),
    }
    assert!(app.queue.batch.is_empty(), "single send never touches the batch");
}

#[test]
fn a_paste_over_the_read_limit_never_reaches_the_box() {
    let mut app = safe_app();
    send(&mut app, Message::OpenLoad);
    let huge = "a".repeat(MAX_BUNDLE_BYTES + 1);
    send(&mut app, Message::JsonChanged(huge));
    assert!(app.json.text.is_empty(), "the widget was never handed it");
    assert!(app.json.error.is_some());
    assert_eq!(app.json.modal, Modal::Load);
}

#[test]
fn an_address_with_no_code_says_so_and_keeps_saying_it() {
    let mut app = safe_app();
    send(&mut app, Message::AddrChanged(text_of(addr(COFFEE))));
    let seq = app.composer.resolve_seq;
    resolved(
        &mut app,
        seq,
        Ok(ResolvedCode { nothing_deployed: true, ..bare_code(addr(COFFEE)) }),
    );
    assert!(app.composer.nothing_deployed, "the emptiness is recorded, not dropped");
    send(&mut app, Message::ShowAbiPaste);
    send(
        &mut app,
        Message::AbiPasteChanged(
            r#"[{"type":"function","name":"deposit","inputs":[],"stateMutability":"payable"}]"#
                .into(),
        ),
    );
    send(&mut app, Message::LoadPastedAbi);
    assert!(app.composer.loaded.is_some(), "the pasted ABI loads");
    assert!(app.composer.nothing_deployed);
    send(&mut app, Message::AddrChanged(text_of(usdc())));
    assert!(!app.composer.nothing_deployed);
}

#[test]
fn the_raw_tab_asks_whether_anything_is_deployed() {
    let mut app = safe_app();
    let out = send(&mut app, Message::RawToChanged(text_of(addr(COFFEE))));
    let Some(Outcome::ProbeCode { seq, address, .. }) = out else {
        panic!("a complete address must be probed, got {out:?}");
    };
    assert_eq!(address, addr(COFFEE));
    app.on_code_probed(seq, addr(COFFEE), Ok(false));
    assert!(app.raw.nothing_deployed, "empty account is reported");
    app.on_code_probed(seq, addr(COFFEE), Ok(true));
    assert!(!app.raw.nothing_deployed);
}

#[test]
fn a_failed_or_stale_code_probe_never_raises_the_warning() {
    let mut app = safe_app();
    let Some(Outcome::ProbeCode { seq, .. }) =
        send(&mut app, Message::RawToChanged(text_of(addr(COFFEE))))
    else {
        panic!("expected a probe");
    };
    app.on_code_probed(seq, addr(COFFEE), Err("connection reset".into()));
    assert!(!app.raw.nothing_deployed);
    let other = addr("0x00000000000000000000000000000000C0FFEE11");
    send(&mut app, Message::RawToChanged(text_of(other)));
    app.on_code_probed(seq, addr(COFFEE), Ok(false));
    assert!(!app.raw.nothing_deployed);
}

#[test]
fn a_custom_network_composer_still_asks_about_code() {
    let mut app = safe_app();
    app.net = NetworkId::Custom(31337);
    let out = send(&mut app, Message::AddrChanged(text_of(addr(COFFEE))));
    assert!(app.composer.not_found, "still prompts for a pasted ABI");
    let Some(Outcome::ProbeCode { seq, address, net }) = out else {
        panic!("expected a code probe, got {out:?}");
    };
    assert_eq!(address, addr(COFFEE));
    assert_eq!(net, NetworkId::Custom(31337));
    app.on_code_probed(seq, addr(COFFEE), Ok(false));
    assert!(app.composer.nothing_deployed);
}

// ── what became of a batch ──────────────────────────────────────────

#[test]
fn a_settled_outcome_is_hidden_off_the_account_it_happened_on() {
    let mut app = safe_app();
    let hash = repeat_hash(0x7A);
    app.on_broadcast_unsuccessful(hash, &BatchFate::Unknown { reason: "t".into() });
    assert_eq!(app.visible_settled(), Some(Settled::Unconfirmed { hash }));
    app.set_context(eoa(), Chain::Mainnet, false, None, true, true, Vec::new());
    assert_eq!(app.visible_settled(), None, "and not on another account");
    select_safe(&mut app, safe(), Chain::Mainnet);
    assert_eq!(app.visible_settled(), Some(Settled::Unconfirmed { hash }));
}

#[test]
fn a_settled_outcome_is_hidden_off_the_network_it_happened_on() {
    let mut app = safe_app();
    app.on_executed(repeat_hash(0x7A));
    assert!(app.visible_settled().is_some());
    select_safe(&mut app, safe(), Chain::Base);
    assert_eq!(app.visible_settled(), None, "a Mainnet hash is not a Base hash");
    select_safe(&mut app, safe(), Chain::Mainnet);
    assert!(app.visible_settled().is_some(), "and comes back");
}

#[test]
fn copying_the_settled_hash_respects_the_active_context() {
    let mut app = safe_app();
    app.on_executed(repeat_hash(0x7A));
    assert!(matches!(
        send(&mut app, Message::CopySettledHash),
        Some(Outcome::CopyPlain(_)),
    ));
    app.set_context(eoa(), Chain::Mainnet, false, None, true, true, Vec::new());
    assert!(send(&mut app, Message::CopySettledHash).is_none());
}

#[test]
fn flash_approval_cannot_push_the_transaction_past_the_queue_ceiling() {
    let mut app = safe_app();
    app.queue.batch = (0..MAX_BATCH_CALLS as u64)
        .map(|i| {
            plain_call(
                i,
                repeat_address(0xC1),
                approve_calldata(repeat_address(i as u8 + 1), 100),
            )
        })
        .collect();
    app.queue.auto_revoke = true;
    assert!(app.effective_calls(&the_wrap(&app)).len() > MAX_BATCH_CALLS);
    assert!(send(&mut app, Message::Review).is_none(), "review is refused");
    let e = app.error.as_deref().expect("with a reason");
    assert!(e.contains("revoke approvals"), "{e}");
    assert!(e.contains(&MAX_BATCH_CALLS.to_string()), "{e}");
    app.error = None;
    assert!(send(&mut app, Message::Simulate).is_none(), "so is simulate");
    assert!(app.error.is_some(), "and it says why");
    app.queue.auto_revoke = false;
    app.error = None;
    assert!(send(&mut app, Message::Review).is_some());
}

fn load_template_of(app: &mut TxBuilderApp, name: &str, owner: Address) {
    let call = plain_call(1, repeat_address(0xC1), vec![0x01, 0x02, 0x03, 0x04]);
    app.set_templates(vec![template_of(name, "(°ᴗ°)", owner, &[call])]);
    send(app, Message::LoadTemplate(0));
}

#[test]
fn loading_a_template_composed_as_another_account_says_so() {
    let mut app = safe_app();
    load_template_of(&mut app, "Weekly claim", eoa());
    assert_eq!(app.queue.batch.len(), 1, "it still loads — a notice, not a wall");
    let e = app.error.as_deref().expect("and says who it was written for");
    assert!(e.contains("Weekly claim"), "{e}");
    assert!(e.contains("composed as"), "{e}");
}

#[test]
fn loading_a_template_composed_as_this_account_stays_quiet() {
    let mut app = safe_app();
    load_template_of(&mut app, "Mine", safe());
    assert_eq!(app.queue.batch.len(), 1);
    assert!(app.error.is_none(), "{:?}", app.error);
}

/// What a call of the Safe's own administration does.
fn admin_effect(c: &QueuedCall) -> Option<String> {
    let add_owner = eth::keccak256(b"addOwnerWithThreshold(address,uint256)");
    if c.data.len() >= 4 && c.data[..4] == add_owner[..4] {
        Some("adds an owner".into())
    } else {
        None
    }
}

#[test]
fn the_queue_flags_a_call_addressed_to_the_active_safe() {
    let app = safe_app();
    let mut data = eth::keccak256(b"addOwnerWithThreshold(address,uint256)")[..4].to_vec();
    data.extend(encode_word("address", &text_of(eoa())).unwrap());
    data.extend(encode_word("uint256", "1").unwrap());
    let governance = plain_call(1, safe(), data);
    let ordinary = QueuedCall { to: repeat_address(0xC1), ..governance.clone() };
    let note = app
        .self_admin_note(&governance, &admin_effect(&governance))
        .expect("a call to the Safe is flagged in the queue");
    assert!(note.contains("adds an owner"), "{note}");
    assert!(app.self_admin_note(&ordinary, &admin_effect(&ordinary)).is_none());
}

#[test]
fn the_queue_flag_keys_on_the_active_identity_not_a_constant() {
    let app = eoa_app();
    let c = plain_call(1, safe(), vec![0x01, 0x02, 0x03, 0x04]);
    assert!(app.self_admin_note(&c, &None).is_none());
    let self_call = QueuedCall { to: eoa(), ..c };
    let note = app.self_admin_note(&self_call, &None).expect("self-call flagged");
    assert!(!note.contains("multisig"), "{note}");
}

// ── how the fee estimate is off ─────────────────────────────────────

fn caveats(app: &TxBuilderApp) -> Vec<String> {
    app.fee_caveats(&the_wrap(app))
}

#[test]
fn fee_caveats_name_only_what_applies_to_this_batch() {
    let mut app = eoa_app();
    app.queue.batch = n_calls(1);
    let c = caveats(&app);
    assert_eq!(c.len(), 1, "{c:?}");
    assert!(c[0].contains("priority tip"), "{c:?}");
}

#[test]
fn fee_caveats_flag_the_l1_data_fee_only_on_the_op_stack() {
    let mut app = eoa_app();
    app.queue.batch = n_calls(1);
    assert!(!caveats(&app).iter().any(|c| c.contains("L1 data fee")));
    send(&mut app, Message::SetNetwork(NetworkId::Builtin(Chain::Base)));
    app.queue.batch = n_calls(1);
    assert!(caveats(&app).iter().any(|c| c.contains("L1 data fee")));
}

#[test]
fn fee_caveats_disclose_the_intrinsic_over_count_only_on_a_batch() {
    let mut app = eoa_app();
    app.queue.batch = n_calls(1);
    assert!(!caveats(&app).iter().any(|c| c.contains("21,000")));
    app.queue.batch = n_calls(3);
    assert!(caveats(&app).iter().any(|c| c.contains("21,000")));
}

#[test]
fn a_safe_batch_discloses_the_wrapper_the_estimate_cannot_see() {
    let mut app = safe_app();
    app.queue.batch = n_calls(2);
    let c = caveats(&app);
    assert!(c.iter().any(|x| x.contains("execTransaction")), "{c:?}");
    assert!(c.iter().any(|x| x.contains("MultiSend")), "{c:?}");
}

#[test]
fn the_review_carries_the_simulation_its_verdict_came_from() {
    let mut app = safe_app();
    app.queue.batch = n_calls(2);
    app.sim.result = Some(BatchSimResult {
        outcome: BatchOutcome::Success,
        gas_used: 210_000,
        transfers: Vec::new(),
        verified: true,
        base_fee_per_gas: 12_000_000_000,
        block: 1,
        block_gas_limit: 30_000_000,
    });
    let Some(Outcome::Review { sim, preflight, .. }) = send(&mut app, Message::Review) else {
        panic!("review outcome");
    };
    assert!(matches!(preflight, Preflight::Passed { .. }));
    let sim = sim.expect("the verdict's own simulation rides along");
    assert_eq!(sim.gas_used, 210_000);
}

// ── ceilings ────────────────────────────────────────────────────────

#[test]
fn add_to_batch_stops_at_the_queue_ceiling() {
    let mut app = safe_app();
    app.queue.batch = n_calls(MAX_BATCH_CALLS as u64);
    app.queue.next_id = MAX_BATCH_CALLS as u64;
    send(&mut app, Message::SetMode(Mode::Raw));
    send(&mut app, Message::RawToChanged(DEAD.into()));
    send(&mut app, Message::AddToBatch);
    assert_eq!(app.queue.batch.len(), MAX_BATCH_CALLS, "the ceiling holds");
    let err = app.error.as_deref().unwrap_or_default();
    assert!(err.contains(&MAX_BATCH_CALLS.to_string()), "{err}");
}

#[test]
fn adopt_batch_refuses_an_over_long_batch_after_the_single_call_reason() {
    let long = n_calls(MAX_BATCH_CALLS as u64 + 10);
    let mut single = eoa_app();
    single.set_context(eoa(), Chain::Mainnet, false, None, false, true, Vec::new());
    let mut found = nothing_found();
    found.loaded_calls = Ok(long.clone());
    single.update(Message::ImportJson, found);
    let err = single.json.error.as_deref().expect("refused");
    assert!(err.contains("one at a time"), "{err}");
    let mut multi = safe_app();
    let mut found = nothing_found();
    found.loaded_calls = Ok(long);
    multi.update(Message::ImportJson, found);
    let err = multi.json.error.as_deref().expect("refused");
    assert!(err.contains(&MAX_BATCH_CALLS.to_string()), "{err}");
    assert!(multi.queue.batch.is_empty(), "nothing was adopted");
}

#[test]
fn raw_mode_cta_stays_off_until_the_value_and_the_data_parse() {
    let mut app = eoa_app();
    send(&mut app, Message::SetMode(Mode::Raw));
    send(&mut app, Message::RawToChanged(DEAD.into()));
    assert!(compose_valid(&app), "a target alone is a valid raw call");
    send(&mut app, Message::RawValueChanged("12.5".into()));
    assert!(!compose_valid(&app), "wei is an integer");
    send(&mut app, Message::RawValueChanged("0".into()));
    send(&mut app, Message::RawDataChanged("0xzz".into()));
    assert!(!compose_valid(&app), "calldata must be hex");
    send(&mut app, Message::RawDataChanged("0xabc".into()));
    assert!(!compose_valid(&app), "odd-length hex is not bytes");
    send(&mut app, Message::RawDataChanged("0xdeadbeef".into()));
    assert!(compose_valid(&app));
}

#[test]
fn a_raw_call_that_would_be_refused_is_never_queued() {
    let mut app = eoa_app();
    send(&mut app, Message::SetMode(Mode::Raw));
    send(&mut app, Message::RawToChanged(DEAD.into()));
    send(&mut app, Message::RawDataChanged("0xabc".into()));
    assert!(!compose_valid(&app));
    assert!(app.error.is_none(), "nothing was attempted, so nothing failed");
    assert!(app.queue.batch.is_empty());
}

#[test]
fn removed_custom_network_falls_back_to_mainnet() {
    let mut app = eoa_app();
    send(&mut app, Message::SetNetwork(NetworkId::Custom(11155111)));
    assert!(app.is_custom());
    app.set_context(eoa(), Chain::Mainnet, false, None, true, true, Vec::new());
    assert_eq!(app.selected_net(), NetworkId::Builtin(Chain::Mainnet));
}

// ── queries ─────────────────────────────────────────────────────────

fn ask_balance(app: &mut TxBuilderApp, holder: &str) {
    send(app, Message::ReadArgChanged(0, holder.into()));
    send(app, Message::Query);
}

fn reading_app() -> TxBuilderApp {
    let mut app = eoa_app();
    send(&mut app, Message::AddrChanged(text_of(usdc())));
    send(&mut app, Message::SetMode(Mode::Read));
    app
}

#[test]
fn read_query_bubbles_eth_call_and_decodes() {
    let mut app = reading_app();
    let holder = addr("0x000000000000000000000000000000000000bEEF");
    send(&mut app, Message::ReadArgChanged(0, text_of(holder)));
    assert!(read_valid(&app));
    let seq = match send(&mut app, Message::Query) {
        Some(Outcome::Read { seq, net, to, data }) => {
            assert_eq!(net, NetworkId::Builtin(Chain::Mainnet));
            assert_eq!(to, usdc());
            assert_eq!(data.len(), 36);
            seq
        }
        other => panic!("expected Read outcome, got {other:?}"),
    };
    assert!(app.reader.busy);
    let ret = eth::U256::from(12_345u64).to_be_bytes::<32>();
    let answer = reply(&app, ret.to_vec(), true);
    app.on_read(seq, Ok(answer));
    assert!(!app.reader.busy);
    match &app.reader.result {
        Some(ReadOutcome::Returned { rows, raw, verified }) => {
            assert!(*verified);
            assert_eq!(rows.len(), 1);
            assert_eq!(rows[0].name, "out0");
            assert_eq!(rows[0].ty, "uint256");
            assert_eq!(rows[0].value, "12345");
            assert!(raw.starts_with("0x"));
        }
        other => panic!("expected decoded read result, got {other:?}"),
    }
    match send(&mut app, Message::CopyReadValue(0)) {
        Some(Outcome::CopyPlain(v)) => assert_eq!(v, "12345"),
        other => panic!("expected CopyPlain, got {other:?}"),
    }
    assert!(matches!(
        send(&mut app, Message::CopyReadRaw),
        Some(Outcome::CopyPlain(_))
    ));
}

#[test]
fn stale_read_result_is_dropped() {
    let mut app = reading_app();
    ask_balance(&mut app, &text_of(repeat_address(1)));
    let stale = app.reader.seq;
    ask_balance(&mut app, &text_of(repeat_address(2)));
    let answer = reply(&app, Vec::new(), true);
    app.on_read(stale, Ok(answer));
    assert!(app.reader.busy, "still awaiting the current query");
}

#[test]
fn switching_the_read_method_retires_an_in_flight_query() {
    let mut app = reading_app();
    ask_balance(&mut app, &text_of(repeat_address(1)));
    let stale = app.reader.seq;
    assert!(app.reader.busy);
    send(&mut app, Message::PickReadMethod(1));
    let answer = reply(&app, vec![0xAAu8; 32], true);
    app.on_read(stale, Ok(answer));
    assert!(app.reader.result.is_none());
    assert!(!app.reader.busy, "a superseded query stops the spinner");
}

#[test]
fn a_new_contract_retires_an_in_flight_query() {
    let mut app = reading_app();
    ask_balance(&mut app, &text_of(repeat_address(1)));
    let stale = app.reader.seq;
    send(&mut app, Message::AddrChanged(text_of(addr(COFFEE))));
    let answer = reply(&app, vec![0xAAu8; 32], true);
    app.on_read(stale, Ok(answer));
    assert!(app.reader.result.is_none(), "answer belongs to the old target");
    assert!(!app.reader.busy);
}

#[test]
fn data_that_does_not_decode_shows_no_values() {
    let mut app = reading_app();
    ask_balance(&mut app, &text_of(repeat_address(1)));
    let seq = app.reader.seq;
    let rows = |app: &TxBuilderApp| match &app.reader.result {
        Some(ReadOutcome::Returned { rows, raw, .. }) => (rows.len(), raw.clone()),
        other => panic!("expected a result, got {other:?}"),
    };
    let made_up = |bytes: Vec<u8>, values: &[&str]| ReadReply {
        bytes,
        verified: true,
        values: Some(values.iter().map(|v| v.to_string()).collect()),
    };
    app.on_read(seq, Ok(made_up(vec![0xAA; 3], &["12345"])));
    assert_eq!(rows(&app), (0, "0xaaaaaa".to_string()), "the raw bytes are still shown");
    app.on_read(seq, Ok(made_up(vec![0; 32], &["1", "2"])));
    assert_eq!(rows(&app).0, 0, "one value, not two");
    app.on_read(seq, Ok(made_up(vec![0; 32], &["0"])));
    assert_eq!(rows(&app).0, 1);
    app.show_read(seq, Ok(made_up(vec![0xAA; 3], &["7"])), &Some(vec![vec![0; 32]]));
    assert_eq!(rows(&app).0, 1);
    app.show_read(seq, Ok(made_up(vec![0; 32], &["7"])), &None);
    assert_eq!(rows(&app).0, 0);
}

// ── how a method was come by ────────────────────────────────────────

#[test]
fn an_unrecovered_parameter_list_is_not_reported_as_no_parameters() {
    assert!(MethodProvenance::Declared.declares_argument_list());
    assert!(MethodProvenance::Matched.declares_argument_list());
    assert!(MethodProvenance::Ambiguous { alternatives: vec!["a()".into()] }.declares_argument_list());
    assert!(!MethodProvenance::SelectorOnly.declares_argument_list());
    assert!(!MethodProvenance::Mismatched { claimed: vec!["a()".into()] }.declares_argument_list());
    let bare = AbiMethod {
        name: "0x1e83409a".into(),
        inputs: Vec::new(),
        outputs: Vec::new(),
        payable: false,
        selector: 0x1e83409a,
        signature: "0x1e83409a()".into(),
        provenance: MethodProvenance::SelectorOnly,
    };
    let c = bare.caution().expect("the bare-selector case warns");
    assert!(c.contains("4-byte"), "{c}");
    assert!(c.contains("Paste the ABI"), "it names the remedy: {c}");
    let typed = AbiMethod { inputs: vec![param("", "address")], ..bare.clone() };
    let c = typed.caution().expect("still worth a note");
    assert!(!c.contains("4-byte"), "but not the same alarm: {c}");
    assert!(AbiMethod { provenance: MethodProvenance::Declared, ..bare }.caution().is_none());
}

#[test]
fn only_a_declared_method_is_said_to_take_nothing() {
    let form = |provenance: MethodProvenance| {
        let mut app = safe_app();
        let m = AbiMethod { provenance, ..method("poke", 0x18178358, Vec::new(), Vec::new()) };
        app.composer.loaded = Some(LoadedContract {
            methods: vec![m],
            ..known(Chain::Mainnet, usdc()).unwrap()
        });
        match builder(&app).composer.body {
            ComposerBody::Call { form: Some(f), .. } => (f.bare, f.caution),
            other => panic!("expected a form, got {other:?}"),
        }
    };
    assert_eq!(form(MethodProvenance::Declared), (true, None));
    assert_eq!(form(MethodProvenance::Matched), (true, None));
    let (bare, caution) =
        form(MethodProvenance::Ambiguous { alternatives: vec!["prod()".into()] });
    assert!(bare && caution.unwrap().contains("selector"));
    for provenance in [
        MethodProvenance::SelectorOnly,
        MethodProvenance::Mismatched { claimed: vec!["prod(uint256)".into()] },
    ] {
        let (bare, caution) = form(provenance);
        assert!(!bare);
        assert!(caution.unwrap().contains("4-byte"));
    }
}

#[test]
fn recovered_queries_fill_in_too() {
    let curated = known(Chain::Mainnet, usdc()).unwrap();
    let listed = curated.methods[0].clone();
    let before = curated.read_methods.len();
    let recovered = LoadedContract {
        source: AbiSource::Bytecode,
        methods: Vec::new(),
        read_methods: vec![listed, method("nonces", 0x7ecebe00, Vec::new(), Vec::new())],
        ..curated.clone()
    };
    let merged = merge_recovered(curated.clone(), recovered);
    assert_eq!(merged.methods, curated.methods);
    assert_eq!(merged.read_methods[..before], curated.read_methods[..]);
    assert_eq!(merged.read_methods.len(), before + 1);
    assert_eq!(merged.read_methods[before].name, "nonces");
}

// ── what is asked ───────────────────────────────────────────────────

#[test]
fn a_review_asks_about_the_version_of_the_safe() {
    let app = old_safe_app();
    let Question::Review { safe_version, .. } = app.question(&Message::Review) else {
        panic!("expected a review");
    };
    assert_eq!(safe_version.as_deref(), Some("1.2.0"));
    let Question::Single { call, safe_version } = app.question(&Message::SendSingle) else {
        panic!("expected a single call");
    };
    assert!(matches!(*call, Question::Nothing), "nothing is composed yet");
    assert_eq!(safe_version.as_deref(), Some("1.2.0"));
    assert_eq!(app.screen_question().safe_version.as_deref(), Some("1.2.0"));
}

#[test]
fn the_screen_asks_about_what_is_on_it() {
    let mut app = safe_app();
    fill_sample(&mut app);
    send(&mut app, Message::AddrChanged(text_of(usdc())));
    send(&mut app, Message::ArgChanged(0, COFFEE.into()));
    send(&mut app, Message::RawToChanged(BEEF.into()));
    let q = app.screen_question();
    assert_eq!(q.address, text_of(usdc()));
    assert_eq!((q.value.as_str(), q.raw_value.as_str(), q.raw_data.as_str()), ("0", "0", ""));
    assert_eq!(q.raw_to, BEEF);
    let call = q.call.unwrap();
    assert_eq!(&call.method, app.selected_method().unwrap());
    assert_eq!(call.args, app.composer.args);
    assert_eq!(call.args[0], COFFEE);
    let query = q.query.unwrap();
    assert_eq!(&query.method, app.selected_read_method().unwrap());
    assert_eq!(query.args, app.reader.args);
    assert_eq!(q.calls, app.queue.batch);
    assert_eq!(q.id, app.queue.next_id);
}

#[test]
fn a_refresh_keeps_an_enabled_custom_network() {
    let mut app = eoa_app();
    send(&mut app, Message::SetNetwork(NetworkId::Custom(11155111)));
    send(&mut app, Message::AddrChanged(text_of(addr(COFFEE))));
    let before = format!("{app:?}");
    app.set_context(
        eoa(),
        Chain::Mainnet,
        false,
        None,
        true,
        true,
        vec![(11155111, "Sepolia".into())],
    );
    assert_eq!(format!("{app:?}"), before);
}

// ── templates ───────────────────────────────────────────────────────

#[test]
fn save_current_batch_persists_and_load_restores() {
    let mut app = safe_app();
    fill_sample(&mut app);
    let n = app.queue.batch.len();
    match send(&mut app, Message::SaveTemplate) {
        Some(Outcome::PersistTemplates { list, .. }) => {
            assert_eq!(list.len(), 1);
            assert_eq!(list[0].call_count, n);
        }
        other => panic!("expected PersistTemplates, got {other:?}"),
    }
    assert_eq!(app.shelf.templates.len(), 1);
    send(&mut app, Message::ClearBatch);
    assert!(app.queue.batch.is_empty());
    send(&mut app, Message::LoadTemplate(0));
    assert_eq!(app.queue.batch.len(), n);
}

#[test]
fn delete_template_persists_removal() {
    let mut app = safe_app();
    fill_sample(&mut app);
    send(&mut app, Message::SaveTemplate);
    assert_eq!(app.shelf.templates.len(), 1);
    match send(&mut app, Message::DeleteTemplate(0)) {
        Some(Outcome::PersistTemplates { list, .. }) => assert!(list.is_empty()),
        other => panic!("expected PersistTemplates, got {other:?}"),
    }
    assert!(app.shelf.templates.is_empty());
}

#[test]
fn rename_template_commits_and_persists() {
    let mut app = safe_app();
    fill_sample(&mut app);
    send(&mut app, Message::SaveTemplate);
    assert_eq!(app.shelf.templates[0].name, "Untitled batch");
    send(&mut app, Message::StartRename(0));
    assert_eq!(app.shelf.rename_idx, Some(0));
    send(&mut app, Message::RenameChanged("  Payroll run  ".into()));
    match send(&mut app, Message::CommitRename) {
        Some(Outcome::PersistTemplates { list, .. }) => assert_eq!(list[0].name, "Payroll run"),
        other => panic!("expected PersistTemplates, got {other:?}"),
    }
    assert_eq!(app.shelf.templates[0].name, "Payroll run", "trimmed + applied");
    assert!(app.shelf.rename_idx.is_none(), "rename cleared after commit");
}

#[test]
fn blank_rename_is_rejected() {
    let mut app = safe_app();
    fill_sample(&mut app);
    send(&mut app, Message::SaveTemplate);
    send(&mut app, Message::StartRename(0));
    send(&mut app, Message::RenameChanged("   ".into()));
    assert!(send(&mut app, Message::CommitRename).is_none());
    assert_eq!(app.shelf.templates[0].name, "Untitled batch");
    assert_eq!(app.shelf.rename_idx, Some(0));
}

// ── further scenarios ───────────────────────────────────────────────

fn ids(app: &TxBuilderApp) -> Vec<u64> {
    app.queue.batch.iter().map(|c| c.id).collect()
}

#[test]
fn moving_a_call_there_and_back_restores_the_queue() {
    let mut app = safe_app();
    app.queue.batch = n_calls(3);
    send(&mut app, Message::MoveUp(2));
    assert_eq!(ids(&app), [0, 2, 1]);
    send(&mut app, Message::MoveDown(2));
    assert_eq!(ids(&app), [0, 1, 2]);
    send(&mut app, Message::MoveUp(0));
    send(&mut app, Message::MoveDown(2));
    send(&mut app, Message::MoveDown(77));
    assert_eq!(ids(&app), [0, 1, 2], "the ends and strangers do not move");
}

#[test]
fn queued_calls_carry_distinct_ids() {
    let mut app = safe_app();
    send(&mut app, Message::LoadSample);
    send(&mut app, Message::SetMode(Mode::Raw));
    send(&mut app, Message::RawToChanged(DEAD.into()));
    send(&mut app, Message::AddToBatch);
    let mut seen = ids(&app);
    assert_eq!(seen.len(), 3);
    seen.sort();
    seen.dedup();
    assert_eq!(seen.len(), 3);
    assert!(seen.iter().all(|id| *id < app.queue.next_id));
}

#[test]
fn dismissing_is_what_drops_a_settled_record() {
    let mut app = safe_app();
    app.on_executed(repeat_hash(1));
    send(&mut app, Message::ClearBatch);
    send(&mut app, Message::SetMode(Mode::Raw));
    assert!(app.visible_settled().is_some());
    send(&mut app, Message::DismissSettled);
    assert!(app.visible_settled().is_none());
}

#[test]
fn a_reverted_batch_stays_in_the_composer() {
    let mut app = safe_app();
    fill_sample(&mut app);
    app.on_broadcast_unsuccessful(repeat_hash(2), &BatchFate::Reverted);
    assert_eq!(app.queue.batch.len(), 2);
    assert_eq!(app.visible_settled(), Some(Settled::Reverted { hash: repeat_hash(2) }));
}

#[test]
fn a_verdict_softens_exactly_when_it_warns() {
    let verdicts = [
        passed_clean(),
        Preflight::Passed { stale: true, verified: true },
        Preflight::Passed { stale: true, verified: false },
        Preflight::TooMuchGas { gas_used: 2, block_gas_limit: 1 },
        Preflight::Fails { at: "call #1".into(), reason: "x".into() },
        Preflight::Errored { reason: "x".into() },
        Preflight::Missing,
        Preflight::Unsupported,
    ];
    for v in verdicts {
        assert_eq!(v.softens_confirm(), v.warning().is_some(), "{v:?}");
    }
    let both = Preflight::Passed { stale: true, verified: false }.warning().unwrap();
    assert!(both.contains("has moved on since it ran and some of the state"), "{both}");
}

#[test]
fn an_unroutable_safe_version_is_refused_as_well() {
    let app = safe_app();
    let gate = VersionGate { unsignable: None, unroutable: Some("no MultiSend".into()) };
    let why = app.no_signer_reason(&gate).unwrap();
    assert!(why.starts_with("no MultiSend. Every Builder batch"), "{why}");
}

#[test]
fn wrapping_is_refused_only_past_the_ceiling() {
    let mut app = safe_app();
    app.queue.batch = n_calls(2);
    app.queue.auto_revoke = true;
    let of = |n: usize| FlashWrap { calls: n_calls(n as u64), opens: 0 };
    assert_eq!(app.effective_calls_checked(&of(MAX_BATCH_CALLS)).unwrap().len(), MAX_BATCH_CALLS);
    let e = app.effective_calls_checked(&of(MAX_BATCH_CALLS + 1)).unwrap_err();
    assert!(e.contains("these 2 calls become"), "{e}");
}

#[test]
fn a_single_call_is_titled_by_itself() {
    let req = |n: u64| EoaBatchRequest {
        net: NetworkId::Builtin(Chain::Mainnet),
        from: eoa(),
        calls: n_calls(n),
        prepared: None,
    };
    assert_eq!(req(1).title(), "t");
    assert!(!req(1).is_batch());
    assert_eq!(req(3).title(), "Batch · 3 calls");
    assert!(req(3).is_batch());
}

#[test]
fn a_failed_query_says_why() {
    let mut app = reading_app();
    ask_balance(&mut app, &text_of(repeat_address(1)));
    let seq = app.reader.seq;
    app.on_read(seq, Err("timed out".into()));
    assert!(matches!(&app.reader.result, Some(ReadOutcome::Failed(e)) if e == "timed out"));
    assert!(send(&mut app, Message::CopyReadRaw).is_none());
}

#[test]
fn return_data_is_taken_apart_by_the_declared_types() {
    let m = method("f", 1, Vec::new(), vec![param("a", "uint256"), param("b", "bool")]);
    let mut data = encode_word("uint256", "7").unwrap();
    data.extend(encode_word("bool", "true").unwrap());
    let values = decode_outputs(&m, &data).unwrap();
    assert_eq!(values.len(), 2);
    assert_eq!(values[0], encode_word("uint256", "7").unwrap());
    assert_eq!(values[1], encode_word("bool", "true").unwrap());
    assert_eq!(decode_outputs(&m, &data[..32].to_vec()), None, "too short");
    let odd = method("f", 1, Vec::new(), vec![param("a", "no type")]);
    assert_eq!(decode_outputs(&odd, &data), None);
    let silent = method("f", 1, Vec::new(), Vec::new());
    assert_eq!(decode_outputs(&silent, &data), None);
}

#[test]
fn bundles_are_composed_with_checksummed_addresses() {
    let (token, pool) = sample_addresses();
    assert_eq!((token, pool), (usdc(), aave()));
    let owner = addr("0x5aAeb6053F3E94C9b9A09f33669435E7Ef1BeAed");
    let known_usdc = known(Chain::Mainnet, token).unwrap();
    let known_aave = known(Chain::Mainnet, pool).unwrap();
    let (approve, supply) = sample_questions(&known_usdc, &known_aave, owner, 5, true).unwrap();
    let Question::ContractCall { args, id: 5, .. } = approve else {
        panic!("the first call is the approval");
    };
    assert_eq!(args[0], "0x87870Bca3F3fD6335C3F4ce8392D69350B4fA4E2");
    let Question::ContractCall { args, .. } = supply else {
        panic!("the second call is the supply");
    };
    assert_eq!(args[0], "0xA0b86991c6218b36c1d19D4a2e9Eb0cE3606eB48");
    assert_eq!(args[2], "0x5aAeb6053F3E94C9b9A09f33669435E7Ef1BeAed");
}

#[test]
fn a_bundle_that_does_not_parse_is_refused_in_the_overlay() {
    let mut app = safe_app();
    send(&mut app, Message::OpenLoad);
    send(&mut app, Message::JsonChanged("{".into()));
    send(&mut app, Message::ImportJson);
    assert!(app.json.error.is_some());
    assert_eq!(app.json.modal, Modal::Load);
    assert!(app.queue.batch.is_empty());
}

#[test]
fn only_a_missing_receipt_leaves_a_fate_open() {
    assert!(BatchFate::Mined.is_decided());
    assert!(BatchFate::Reverted.is_decided());
    assert!(!BatchFate::Unknown { reason: "t".into() }.is_decided());
}

#[test]
fn a_failure_of_the_coordinator_reaches_the_banner() {
    let mut app = safe_app();
    app.set_error("no route".into());
    assert_eq!(app.error_text(), Some("no route"));
    assert_eq!(builder(&app).error.as_deref(), Some("no route"));
    send(&mut app, Message::DismissError);
    assert_eq!(app.error_text(), None);
    app.on_proposed(4);
    assert_eq!(app.settled_state(), Some(Settled::Proposed { nonce: 4 }));
}

// ── the screen ──────────────────────────────────────────────────────

fn param_facts(inputs: &[AbiParam], args: &[String]) -> Vec<ParamFacts> {
    inputs
        .iter()
        .enumerate()
        .map(|(i, p)| ParamFacts {
            name: p.name.clone(),
            valid: args.get(i).is_some_and(|a| encode_word(&p.ty_str, a).is_ok()),
        })
        .collect()
}

fn facts(app: &TxBuilderApp) -> ViewFacts {
    let q = app.screen_question();
    let valid = |c: &Option<AskedCall>| c.as_ref().is_some_and(|c| args_valid(&c.method, &c.args));
    let params = |c: &Option<AskedCall>| {
        c.as_ref().map(|c| param_facts(&c.method.inputs, &c.args)).unwrap_or_default()
    };
    ViewFacts {
        addr_ok: checked_address(&q.address).is_ok(),
        raw_to_ok: checked_address(&q.raw_to).is_ok(),
        compose: ComposeChecks {
            args: valid(&q.call),
            value: wei(&q.value).is_ok(),
            raw_to: checked_address(&q.raw_to).is_ok(),
            raw_value: wei(&q.raw_value).is_ok(),
            raw_data: hex_data(&q.raw_data).is_ok(),
        },
        params: params(&q.call),
        read_params: params(&q.query),
        read_args_valid: valid(&q.query),
        revokes: approvals(&q.calls).len(),
        wrap: wrap(&q.calls, q.id),
        effects: q.calls.iter().map(admin_effect).collect(),
        gate: gate(q.safe_version.as_deref()),
    }
}

fn builder(app: &TxBuilderApp) -> Builder {
    match app.screen(&facts(app)) {
        Screen::Builder(b) => b,
        other => panic!("expected the builder, got {other:?}"),
    }
}

fn batch_shown(app: &TxBuilderApp) -> BatchPane {
    builder(app).batch.expect("a built-in network has a batch")
}

#[test]
fn an_open_overlay_is_all_there_is() {
    let mut app = safe_app();
    send(&mut app, Message::OpenLoad);
    let Screen::Overlay(m) = app.screen(&facts(&app)) else {
        panic!("the overlay is open");
    };
    assert_eq!(m.title, "Import batch");
    assert!(m.right.action.is_none(), "there is nothing to load yet");
    send(&mut app, Message::JsonChanged("{}".into()));
    let Screen::Overlay(m) = app.screen(&facts(&app)) else {
        panic!("the overlay is open");
    };
    assert!(matches!(m.right.action, Some(Message::ImportJson)));
    fill_sample(&mut app);
    send(&mut app, Message::OpenSave);
    let Screen::Overlay(m) = app.screen(&facts(&app)) else {
        panic!("the overlay is open");
    };
    assert_eq!((m.title, m.editable), ("Export batch", false));
}

#[test]
fn only_an_account_that_is_no_safe_can_switch_networks() {
    let b = builder(&safe_app());
    assert_eq!((b.network.glyph, b.network.action.is_some()), ("🔒", false));
    assert_eq!((b.identity.label, b.identity.address.as_str()), ("Safe multisig", "0x5a5a…5a5a"));
    let mut app = eoa_app();
    send(&mut app, Message::ToggleNetworkMenu);
    let b = builder(&app);
    assert_eq!(b.network.name, "Ethereum Mainnet");
    assert_eq!(b.network.chain, "chain 1");
    assert_eq!(b.network.glyph, "▲");
    assert_eq!(b.identity.label, "Single account");
    let menu = b.menu.unwrap();
    let on: Vec<bool> = menu.iter().map(|o| o.on).collect();
    assert_eq!(on, [true, false, false, false]);
    assert_eq!((menu[3].name.as_str(), menu[3].chain_id.as_str()), ("Sepolia", "11155111"));
    assert!(matches!(menu[3].action, Message::SetNetwork(NetworkId::Custom(11155111))));
    send(&mut app, Message::SetNetwork(NetworkId::Custom(11155111)));
    let b = builder(&app);
    assert!(b.batch.is_none());
    assert_eq!(b.network.name, "Sepolia");
}

#[test]
fn an_empty_batch_offers_a_sample_and_nothing_else() {
    let b = batch_shown(&safe_app());
    assert_eq!(b.count, "0");
    assert!(b.clear.is_none() && b.simulate.action.is_none());
    assert!(b.save.action.is_none() && b.cta.action.is_none());
    assert!(matches!(b.load.action, Some(Message::OpenLoad)));
    assert!(matches!(b.sample.unwrap().action, Some(Message::LoadSample)));
    assert!(batch_shown(&eoa_app()).sample.is_none(), "the sample is made for a Safe");
}

#[test]
fn each_queued_call_has_a_card() {
    let mut app = safe_app();
    fill_sample(&mut app);
    let first = app.queue.batch[0].id;
    send(&mut app, Message::ToggleExpand(first));
    let b = batch_shown(&app);
    assert_eq!(b.cta.label, "Create batch · 2 → 1");
    assert_eq!(b.cards.len(), 2);
    assert_eq!((b.cards[0].number.as_str(), b.cards[1].number.as_str()), ("1", "2"));
    assert!(b.cards[0].up.is_none() && b.cards[0].down.is_some());
    assert!(b.cards[1].up.is_some() && b.cards[1].down.is_none());
    assert!(b.cards[0].decoded.is_some() && b.cards[1].decoded.is_none());
    assert!(matches!(b.cards[1].remove, Message::RemoveCall(id) if id == app.queue.batch[1].id));
    assert_eq!(b.revoke.unwrap().hint, "leaves 1 standing allowance");
}

#[test]
fn an_expanded_call_is_shown_to_the_last_byte() {
    let mut c = plain_call(1, usdc(), vec![0xa9, 0x05, 0x9c, 0xbb, 0x01]);
    c.signature = Some("transfer(address,uint256)".into());
    c.decoded_args = vec![DecodedArg { name: "to".into(), value: "you".into() }];
    c.value = U256 { hi: 1, lo: 0 };
    assert_eq!(
        decoded_panel(&c),
        vec![
            DecodedLine::Comment("// target".into()),
            DecodedLine::Plain("0xA0b86991c6218b36c1d19D4a2e9Eb0cE3606eB48".into()),
            DecodedLine::Comment("// function · selector 0xa9059cbb".into()),
            DecodedLine::Signature("transfer(address,uint256)".into()),
            DecodedLine::Comment("// args".into()),
            DecodedLine::Plain("to =".into()),
            DecodedLine::Value("you".into()),
            DecodedLine::Comment("// value".into()),
            DecodedLine::Data("340282366920938463463374607431768211456 wei".into()),
            DecodedLine::Comment("// calldata".into()),
            DecodedLine::Data("0xa9059cbb01".into()),
        ],
    );
}

#[test]
fn the_verdict_names_the_card_that_fails() {
    let mut app = safe_app();
    fill_sample(&mut app);
    let seq = simulate_seq(&mut app);
    assert_eq!(batch_shown(&app).simulate.label, "Simulating…");
    assert!(batch_shown(&app).simulate.action.is_none());
    app.on_sim(seq, Ok(simulated(BatchOutcome::Revert { step: 1, reason: "no funds".into() })), NOW);
    let strip = batch_shown(&app).sim.unwrap();
    assert_eq!(strip.title, "Reverts at call #2");
    assert_eq!(strip.detail, "no funds");
    assert!(!strip.good && strip.fee.is_none());
    app.on_sim(
        seq,
        Ok(BatchSimResult { base_fee_per_gas: 7, ..simulated(BatchOutcome::Success) }),
        NOW,
    );
    let strip = batch_shown(&app).sim.unwrap();
    assert_eq!((strip.title.as_str(), strip.detail.as_str()), ("Simulation passed", "≈ 41000 gas"));
    assert_eq!(strip.fee, Some(U256 { hi: 0, lo: 287_000 }));
    assert_eq!((strip.good, strip.badge), (true, "verified"));
}

#[test]
fn revokes_are_counted_in_words() {
    assert_eq!(revoke_toggle(true, 1).hint, "+1 revoke appended · allowance reset to 0");
    assert_eq!(revoke_toggle(true, 2).hint, "+2 revokes appended · allowance reset to 0");
    assert_eq!(revoke_toggle(false, 2).hint, "leaves 2 standing allowances");
}

#[test]
fn only_the_chosen_template_is_being_renamed() {
    let mut app = safe_app();
    fill_sample(&mut app);
    send(&mut app, Message::SaveTemplate);
    send(&mut app, Message::SaveTemplate);
    app.shelf.menu_open = true;
    send(&mut app, Message::StartRename(1));
    let menu = batch_shown(&app).templates.expect("the menu is open");
    assert_eq!(menu.title, "Your templates · 2");
    assert_eq!(menu.rows[0].subtitle, "2 calls · saved");
    assert!(matches!(menu.rows[0].mode, TemplateMode::Shown { .. }));
    assert!(matches!(&menu.rows[1].mode, TemplateMode::Renaming { buffer, .. }
        if buffer == "Untitled batch"));
}

#[test]
fn a_field_complains_only_once_it_was_touched() {
    let untouched = param_row(0, "to", "address", false, " ", false);
    assert_eq!(untouched.note, None);
    assert!(matches!(untouched.input, ParamInput::Text { invalid: false, .. }));
    let wrong = param_row(0, "to", "address", false, "x", false);
    assert_eq!(wrong.note.as_deref(), Some("needs address"));
    assert!(matches!(wrong.input, ParamInput::Text { invalid: true, .. }));
    assert_eq!(param_row(0, "to", "address", true, "x", false).note.as_deref(), Some("✓ valid"));
    let flag = param_row(3, "on", "bool", true, "true", true);
    assert!(matches!(
        flag.input,
        ParamInput::Toggle { yes_on: true, no_on: false, yes: Message::ReadBoolArg(3, true), .. }
    ));
}

#[test]
fn a_loaded_contract_is_announced_and_its_call_added() {
    let mut app = safe_app();
    let b = builder(&app);
    assert_eq!(b.composer.tabs.iter().filter(|t| t.on).count(), 1);
    assert!(matches!(&b.composer.body, ComposerBody::Call { head, form: None }
        if matches!(head.status, HeadStatus::Hint(_))));
    send(&mut app, Message::AddrChanged(text_of(usdc())));
    let b = builder(&app);
    let ComposerBody::Call { head, form: Some(form) } = b.composer.body else {
        panic!("the write tab is on, with a form");
    };
    let HeadStatus::Loaded(banner) = head.status else {
        panic!("the contract is loaded");
    };
    assert_eq!(banner.name, "USDC");
    assert_eq!(banner.badge, "✓ verified");
    assert_eq!(banner.subtitle, "USD Coin · 2 write · 2 read");
    assert_eq!(form.picker.params, "(address, uint256)");
    assert_eq!(form.params.len(), 2);
    assert!(b.composer.cta.unwrap().action.is_none(), "the arguments are missing");
    send(&mut app, Message::ArgChanged(0, DEAD.into()));
    send(&mut app, Message::ArgChanged(1, "5".into()));
    assert!(matches!(builder(&app).composer.cta.unwrap().action, Some(Message::AddToBatch)));
}

#[test]
fn a_query_shows_what_came_back() {
    let mut app = reading_app();
    send(&mut app, Message::ReadArgChanged(0, text_of(repeat_address(1))));
    let seq = match send(&mut app, Message::Query) {
        Some(Outcome::Read { seq, .. }) => seq,
        other => panic!("expected a query, got {other:?}"),
    };
    let form = |app: &TxBuilderApp| match builder(app).composer.body {
        ComposerBody::Read { form: Some(f), .. } => f,
        other => panic!("expected the read tab, got {other:?}"),
    };
    assert!(matches!(form(&app), ReadForm::Query { query, .. }
        if query.label == "Querying…" && query.action.is_none()));
    let answer = reply(&app, eth::U256::from(9u64).to_be_bytes::<32>().to_vec(), false);
    app.on_read(seq, Ok(answer));
    let ReadForm::Query { query, result: Some(result), .. } = form(&app) else {
        panic!("expected a result");
    };
    assert!(matches!(query.action, Some(Message::Query)));
    let ResultPanel::Returned { badge, values, raw, .. } = result else {
        panic!("expected values");
    };
    assert_eq!(badge, "unverified");
    assert_eq!(values[0].line, "out0 = 9");
    assert_eq!(raw.len(), 66);
}

#[test]
fn a_failed_fetch_is_shown_with_a_way_to_retry() {
    let mut app = safe_app();
    send(&mut app, Message::AddrChanged(text_of(eoa())));
    let head = |app: &TxBuilderApp| match builder(app).composer.body {
        ComposerBody::Call { head, .. } => head,
        other => panic!("expected the write tab, got {other:?}"),
    };
    assert!(head(&app).retry.is_none());
    let seq = app.composer.resolve_seq;
    resolved(&mut app, seq, Err("timed out".into()));
    assert_eq!(head(&app).fetch_error.as_deref(), Some("timed out"));
    let retry = head(&app).retry.expect("a fetch that failed can be retried");
    assert!(matches!(send(&mut app, retry), Some(Outcome::ResolveContract { .. })));
    send(&mut app, Message::AddrChanged("0xa0b86991c6218b36c1d19D4a2e9Eb0cE3606eB48".into()));
    assert!(head(&app).addr_error.unwrap().contains("EIP-55"));
}

#[test]
fn an_address_without_a_contract_is_flagged_on_screen() {
    let mut app = safe_app();
    send(&mut app, Message::SetMode(Mode::Raw));
    let Some(Outcome::ProbeCode { seq, address, .. }) =
        send(&mut app, Message::RawToChanged(COFFEE.into()))
    else {
        panic!("expected a probe");
    };
    let empty = |app: &TxBuilderApp| {
        matches!(builder(app).composer.body, ComposerBody::Raw { nothing_deployed: true, .. })
    };
    assert!(!empty(&app));
    app.on_code_probed(seq, address, Ok(false));
    assert!(empty(&app));
}

#[test]
fn a_call_to_the_acting_account_is_flagged_on_its_card() {
    let mut app = safe_app();
    app.queue.batch = vec![plain_call(1, safe(), vec![1]), plain_call(2, usdc(), vec![1])];
    let notes = batch_shown(&app).notes;
    assert!(notes[0].as_deref().is_some_and(|n| n.contains("acts as the Safe on itself")));
    assert!(notes[1].is_none());
}

#[test]
fn a_verdict_is_shown_with_what_it_does_not_cover() {
    let mut app = safe_app();
    fill_sample(&mut app);
    assert!(batch_shown(&app).blind_spots.is_empty());
    let seq = simulate_seq(&mut app);
    app.on_sim(seq, Ok(simulated(BatchOutcome::Success)), NOW);
    let b = batch_shown(&app);
    assert!(b.sim.is_some());
    assert_eq!(b.blind_spots, app.sim_blind_spots(&the_wrap(&app)));
    assert_eq!(b.blind_spots.len(), 3);
}

#[test]
fn the_settled_strip_copies_and_goes() {
    let mut app = safe_app();
    assert!(builder(&app).settled.is_none());
    app.on_executed(repeat_hash(0x7A));
    let strip = builder(&app).settled.unwrap();
    assert_eq!(strip.outcome, Settled::Executed { hash: repeat_hash(0x7A) });
    let copied = send(&mut app, strip.copy.unwrap());
    assert!(matches!(copied, Some(Outcome::CopyPlain(h)) if h == format!("0x{}", "7a".repeat(32))));
    send(&mut app, strip.dismiss);
    assert!(builder(&app).settled.is_none());
    app.on_proposed(3);
    assert!(builder(&app).settled.unwrap().copy.is_none(), "nothing was sent");
}

#[test]
fn an_unsignable_safe_says_so_up_front() {
    assert!(builder(&old_safe_app()).refusal.is_some_and(|r| r.contains("1.2.0")));
    assert!(builder(&safe_app()).refusal.is_none());
    assert!(builder(&view_only_app()).refusal.is_none());
}
