//! Plain-value pictures of what the host chain hands to a contract and takes
//! back from it: block data, the caller, attached coins, its verdict on
//! addresses, and the response with its outgoing messages and event
//! attributes.

use crate::book::AddrMap;
use crate::cremation_token::msg::RouterExecuteMsg;
use crate::error::StdError;
use crate::math::{lemma_share_bounded, mul_decimal, Decimal, DECIMAL_FRACTIONAL};
use vstd::prelude::*;

verus! {

/// Nanoseconds in one second.
pub const NANOS_PER_SECOND: u64 = 1_000_000_000;

/// Seconds in one day.
pub const SECONDS_PER_DAY: u64 = 86_400;

/// A point in time, counted in nanoseconds since the Unix epoch.
#[derive(Debug, PartialEq, Eq, Copy, Clone)]
pub struct Timestamp {
    pub nanos: u64,
}

impl Timestamp {
    pub fn from_nanos(nanos: u64) -> (t: Timestamp)
        ensures
            t.nanos == nanos,
    {
        Timestamp { nanos }
    }

    pub fn from_seconds(seconds: u64) -> (t: Timestamp)
        requires
            seconds * NANOS_PER_SECOND <= u64::MAX,
        ensures
            t.nanos == seconds * NANOS_PER_SECOND,
    {
        Timestamp { nanos: seconds * NANOS_PER_SECOND }
    }

    /// Whole seconds since the epoch, rounded down.
    pub open spec fn spec_seconds(&self) -> u64 {
        self.nanos / NANOS_PER_SECOND
    }

    #[verifier::when_used_as_spec(spec_seconds)]
    pub fn seconds(&self) -> (s: u64)
        ensures
            s == self.spec_seconds(),
    {
        self.nanos / NANOS_PER_SECOND
    }

    /// The instant `days` days later, as an unbounded count of nanoseconds.
    pub open spec fn nanos_after_days(self, days: u64) -> nat {
        (self.nanos + days * SECONDS_PER_DAY * NANOS_PER_SECOND) as nat
    }

    /// The instant `days` days later.
    pub fn plus_days(&self, days: u64) -> (t: Timestamp)
        requires
            self.nanos_after_days(days) <= u64::MAX,
        ensures
            t.nanos == self.nanos_after_days(days),
    {
        assert(days * SECONDS_PER_DAY * NANOS_PER_SECOND == days * 86_400_000_000_000) by (nonlinear_arith);
        Timestamp { nanos: self.nanos + days * 86_400_000_000_000 }
    }

    /// Whether `self` is at or after the instant `days` days past `start`.
    /// Unlike [`Timestamp::plus_days`] this never needs the later instant to
    /// fit in 64 bits.
    pub fn reached(&self, start: &Timestamp, days: u64) -> (b: bool)
        ensures
            b == (self.nanos >= start.nanos_after_days(days)),
    {
        assert(days * SECONDS_PER_DAY * NANOS_PER_SECOND == days * 86_400_000_000_000) by (nonlinear_arith);
        let later: u128 = start.nanos as u128 + days as u128 * 86_400_000_000_000u128;
        self.nanos as u128 >= later
    }
}

/// An amount of one native denomination.
#[derive(Debug, PartialEq, Eq)]
pub struct Coin {
    pub denom: String,
    pub amount: u128,
}

impl Clone for Coin {
    fn clone(&self) -> (c: Coin)
        ensures
            c == *self,
    {
        Coin { denom: self.denom.clone(), amount: self.amount }
    }
}

/// The block a message executes in.
#[derive(Debug, PartialEq, Eq, Copy, Clone)]
pub struct BlockInfo {
    pub time: Timestamp,
}

/// The contract instance a message is delivered to.
#[derive(Debug, PartialEq, Eq, Clone)]
pub struct ContractInfo {
    pub address: String,
}

/// Execution context supplied by the host with every message.
#[derive(Debug, PartialEq, Eq, Clone)]
pub struct Env {
    pub block: BlockInfo,
    pub contract: ContractInfo,
}

/// Who sent a message and what native coins came with it.
#[derive(Debug, PartialEq, Eq, Clone)]
pub struct MessageInfo {
    pub sender: String,
    pub funds: Vec<Coin>,
}

/// One key/value pair of the event a response emits.
#[derive(Debug, PartialEq, Eq, Clone)]
pub struct Attribute {
    pub key: String,
    pub value: String,
}

impl View for Attribute {
    type V = (Seq<char>, Seq<char>);

    open spec fn view(&self) -> (Seq<char>, Seq<char>) {
        (self.key@, self.value@)
    }
}

/// Builds an attribute from a literal key and a ready value.
pub fn attr(key: &str, value: String) -> (a: Attribute)
    ensures
        a.key@ == key@,
        a.value == value,
{
    Attribute { key: key.to_owned(), value }
}

/// Builds an attribute whose key and value are both literals.
pub fn attr_str(key: &str, value: &str) -> (a: Attribute)
    ensures
        a@ == (key@, value@),
{
    Attribute { key: key.to_owned(), value: value.to_owned() }
}

/// The body of a call into another contract, before it is put on the wire.
#[allow(inconsistent_fields)]
#[derive(Debug, PartialEq, Eq, Clone)]
pub enum Payload {
    /// Token request: move `amount` from the caller to `recipient`.
    Cw20Transfer { recipient: String, amount: u128 },
    /// Token request: destroy `amount` of the caller's balance.
    Cw20Burn { amount: u128 },
    /// Token request: create `amount` for `recipient`.
    Cw20Mint { recipient: String, amount: u128 },
    /// Token request: move `amount` to `contract` and hand it a swap request.
    Cw20Send { contract: String, amount: u128, msg: RouterExecuteMsg },
    /// Token request: move `amount` of `owner`'s balance to `contract` on an
    /// allowance and hand it a swap request.
    Cw20SendFrom { owner: String, contract: String, amount: u128, msg: RouterExecuteMsg },
    /// Notice to a contract that it received `amount` from `sender`.
    Cw20Receive { sender: String, amount: u128, msg: Vec<u8> },
    /// Request to a swap router.
    Router { msg: RouterExecuteMsg },
}

/// Native-coin instructions.
#[derive(Debug, PartialEq, Eq, Clone)]
pub enum BankMsg {
    Send { to_address: String, amount: Vec<Coin> },
    Burn { amount: Vec<Coin> },
}

/// Contract-call instructions.
#[derive(Debug, PartialEq, Eq, Clone)]
pub enum WasmMsg {
    Execute { contract_addr: String, msg: Payload, funds: Vec<Coin> },
}

/// Anything a contract can ask the host to do after it returns.
#[derive(Debug, PartialEq, Eq, Clone)]
pub enum CosmosMsg {
    Bank(BankMsg),
    Wasm(WasmMsg),
}

/// When the host calls back after running a message.
#[derive(Debug, PartialEq, Eq, Clone, Copy)]
pub enum ReplyOn {
    Never,
    Success,
}

/// A message together with the continuation it is tagged with.
#[derive(Debug, PartialEq, Eq, Clone)]
pub struct SubMsg {
    pub id: u64,
    pub msg: CosmosMsg,
    pub reply_on: ReplyOn,
}

impl SubMsg {
    /// Whether no continuation is asked for.
    pub open spec fn is_plain(self) -> bool {
        self.id == 0 && self.reply_on == ReplyOn::Never
    }

    /// A fire-and-forget message.
    pub fn new(msg: CosmosMsg) -> (s: SubMsg)
        ensures
            s == (SubMsg { id: 0, msg, reply_on: ReplyOn::Never }),
    {
        SubMsg { id: 0, msg, reply_on: ReplyOn::Never }
    }

    /// A message whose success brings a continuation tagged `id`.
    pub fn reply_on_success(msg: CosmosMsg, id: u64) -> (s: SubMsg)
        ensures
            s == (SubMsg { id, msg, reply_on: ReplyOn::Success }),
    {
        SubMsg { id, msg, reply_on: ReplyOn::Success }
    }
}

/// The continuation the host delivers after a tagged message succeeded.
#[derive(Debug, PartialEq, Eq, Clone, Copy)]
pub struct Reply {
    pub id: u64,
}

/// What a contract hands back to the host: messages to run and attributes
/// to log.
#[derive(Debug, PartialEq, Eq, Clone)]
pub struct Response {
    pub messages: Vec<SubMsg>,
    pub attributes: Vec<Attribute>,
}

impl Response {
    /// The logged pairs as plain text.
    pub open spec fn attrs(self) -> Seq<(Seq<char>, Seq<char>)> {
        self.attributes@.map_values(|a: Attribute| a@)
    }

    /// Whether nothing is sent and nothing is logged.
    pub open spec fn is_empty(self) -> bool {
        self.messages@.len() == 0 && self.attributes@.len() == 0
    }

    pub fn new() -> (r: Response)
        ensures
            r.is_empty(),
            r.attrs() == Seq::<(Seq<char>, Seq<char>)>::empty(),
    {
        let r = Response { messages: Vec::new(), attributes: Vec::new() };
        proof {
            assert(r.attrs() =~= Seq::<(Seq<char>, Seq<char>)>::empty());
        }
        r
    }

    pub fn add_attribute(self, key: &str, value: String) -> (r: Response)
        ensures
            r.messages == self.messages,
            r.attributes@.len() == self.attributes@.len() + 1,
            r.attributes@.subrange(0, self.attributes@.len() as int) == self.attributes@,
            r.attributes@.last().key@ == key@,
            r.attributes@.last().value == value,
            r.attrs() == self.attrs().push((key@, value@)),
    {
        let mut r = self;
        let ghost before = r.attributes@;
        r.attributes.push(attr(key, value));
        proof {
            assert(r.attributes@.subrange(0, before.len() as int) =~= before);
            assert(r.attrs() =~= before.map_values(|a: Attribute| a@).push((key@, value@)));
        }
        r
    }

    pub fn add_message(self, msg: CosmosMsg) -> (r: Response)
        ensures
            r.attributes == self.attributes,
            r.messages@ == self.messages@.push(SubMsg { id: 0, msg, reply_on: ReplyOn::Never }),
    {
        let mut r = self;
        r.messages.push(SubMsg::new(msg));
        r
    }

    pub fn add_submessage(self, msg: SubMsg) -> (r: Response)
        ensures
            r.attributes == self.attributes,
            r.messages@ == self.messages@.push(msg),
    {
        let mut r = self;
        r.messages.push(msg);
        r
    }
}

impl Default for Response {
    fn default() -> (r: Response)
        ensures
            r.is_empty(),
            r.attrs() == Seq::<(Seq<char>, Seq<char>)>::empty(),
    {
        Response::new()
    }
}

/// Whether `coins` is exactly one coin of `amount` in `denom`.
pub open spec fn single_coin(coins: Seq<Coin>, denom: Seq<char>, amount: u128) -> bool {
    coins.len() == 1 && coins[0].denom@ == denom && coins[0].amount == amount
}

impl CosmosMsg {
    /// Whether this sends `amount` of `denom` to `to`.
    pub open spec fn is_bank_send(self, to: Seq<char>, denom: Seq<char>, amount: u128) -> bool {
        self matches CosmosMsg::Bank(BankMsg::Send { to_address, amount: coins })
            && to_address@ == to && single_coin(coins@, denom, amount)
    }

    /// Whether this destroys `amount` of `denom`.
    pub open spec fn is_bank_burn(self, denom: Seq<char>, amount: u128) -> bool {
        self matches CosmosMsg::Bank(BankMsg::Burn { amount: coins }) && single_coin(
            coins@,
            denom,
            amount,
        )
    }

    /// Whether this calls `contract` with `payload` and attaches no coins.
    pub open spec fn is_call(self, contract: Seq<char>, payload: Payload) -> bool {
        self matches CosmosMsg::Wasm(WasmMsg::Execute { contract_addr, msg, funds })
            && contract_addr@ == contract && msg == payload && funds@.len() == 0
    }

    /// Whether this calls `contract` with `payload` and attaches `amount`
    /// of `denom`.
    pub open spec fn is_funded_call(
        self,
        contract: Seq<char>,
        payload: Payload,
        denom: Seq<char>,
        amount: u128,
    ) -> bool {
        self matches CosmosMsg::Wasm(WasmMsg::Execute { contract_addr, msg, funds })
            && contract_addr@ == contract && msg == payload && single_coin(funds@, denom, amount)
    }

    /// Whether this asks the token at `token` to move `amount` to
    /// `recipient`.
    pub open spec fn is_cw20_transfer(
        self,
        token: Seq<char>,
        recipient: Seq<char>,
        amount: u128,
    ) -> bool {
        self matches CosmosMsg::Wasm(WasmMsg::Execute { contract_addr, msg, funds })
            && contract_addr@ == token && funds@.len() == 0 && (msg matches Payload::Cw20Transfer {
            recipient: r,
            amount: a,
        } && r@ == recipient && a == amount)
    }

    /// Whether this asks the token at `token` to destroy `amount`.
    pub open spec fn is_cw20_burn(self, token: Seq<char>, amount: u128) -> bool {
        self matches CosmosMsg::Wasm(WasmMsg::Execute { contract_addr, msg, funds })
            && contract_addr@ == token && funds@.len() == 0 && (msg matches Payload::Cw20Burn {
            amount: a,
        } && a == amount)
    }

    /// Whether this asks the token at `token` to create `amount` for
    /// `recipient`.
    pub open spec fn is_cw20_mint(
        self,
        token: Seq<char>,
        recipient: Seq<char>,
        amount: u128,
    ) -> bool {
        self matches CosmosMsg::Wasm(WasmMsg::Execute { contract_addr, msg, funds })
            && contract_addr@ == token && funds@.len() == 0 && (msg matches Payload::Cw20Mint {
            recipient: r,
            amount: a,
        } && r@ == recipient && a == amount)
    }
}

/// One coin of `amount` in the denomination `denom`.
pub fn coin(amount: u128, denom: &str) -> (c: Coin)
    ensures
        c.amount == amount,
        c.denom@ == denom@,
{
    Coin { denom: denom.to_owned(), amount }
}

/// A list holding the one coin given.
pub fn coins(amount: u128, denom: &str) -> (v: Vec<Coin>)
    ensures
        single_coin(v@, denom@, amount),
{
    let mut v: Vec<Coin> = Vec::new();
    v.push(coin(amount, denom));
    v
}

/// A call of `contract` with `payload` and no coins attached.
pub fn call(contract: &String, payload: Payload) -> (m: CosmosMsg)
    ensures
        m.is_call(contract@, payload),
{
    CosmosMsg::Wasm(WasmMsg::Execute { contract_addr: contract.clone(), msg: payload, funds: Vec::new() })
}

/// A request to the token at `token` to move `amount` to `recipient`.
pub fn cw20_transfer(token: &String, recipient: &String, amount: u128) -> (m: CosmosMsg)
    ensures
        m.is_cw20_transfer(token@, recipient@, amount),
{
    call(token, Payload::Cw20Transfer { recipient: recipient.clone(), amount })
}

/// A request to the token at `token` to destroy `amount`.
pub fn cw20_burn(token: &String, amount: u128) -> (m: CosmosMsg)
    ensures
        m.is_cw20_burn(token@, amount),
{
    call(token, Payload::Cw20Burn { amount })
}

/// A request to the token at `token` to create `amount` for `recipient`.
pub fn cw20_mint(token: &String, recipient: &String, amount: u128) -> (m: CosmosMsg)
    ensures
        m.is_cw20_mint(token@, recipient@, amount),
{
    call(token, Payload::Cw20Mint { recipient: recipient.clone(), amount })
}

/// An instruction to send `amount` of `denom` to `to`.
pub fn bank_send(to: &String, denom: &str, amount: u128) -> (m: CosmosMsg)
    ensures
        m.is_bank_send(to@, denom@, amount),
{
    CosmosMsg::Bank(BankMsg::Send { to_address: to.clone(), amount: coins(amount, denom) })
}

/// An instruction to destroy `amount` of `denom`.
pub fn bank_burn(denom: &str, amount: u128) -> (m: CosmosMsg)
    ensures
        m.is_bank_burn(denom@, amount),
{
    CosmosMsg::Bank(BankMsg::Burn { amount: coins(amount, denom) })
}

/// What a token contract tells the receiver of a `Send`: who sent how much,
/// and the hook message that came along, already decoded (or the reason it
/// could not be).
#[derive(Debug, PartialEq, Eq)]
pub struct Cw20ReceiveMsg<H> {
    pub sender: String,
    pub amount: u128,
    pub msg: Result<H, StdError>,
}

/// The amount of the first coin in `funds`, from position `i` on, that is
/// in `denom`; zero when there is none.
pub open spec fn amount_from(funds: Seq<Coin>, denom: Seq<char>, i: int) -> u128
    decreases funds.len() - i,
{
    if i < 0 || i >= funds.len() {
        0
    } else if funds[i].denom@ == denom {
        funds[i].amount
    } else {
        amount_from(funds, denom, i + 1)
    }
}

/// The amount of the first coin in `funds` that is in `denom`; zero when
/// there is none.
pub open spec fn amount_of(funds: Seq<Coin>, denom: Seq<char>) -> u128 {
    amount_from(funds, denom, 0)
}

/// The amount of the first coin in `funds` that is in `denom`; zero when
/// there is none.
pub fn funds_in(funds: &Vec<Coin>, denom: &String) -> (a: u128)
    ensures
        a == amount_of(funds@, denom@),
{
    let mut i: usize = 0;
    while i < funds.len()
        invariant
            i <= funds@.len(),
            amount_of(funds@, denom@) == amount_from(funds@, denom@, i as int),
        decreases funds@.len() - i,
    {
        if funds[i].denom == *denom {
            return funds[i].amount;
        }
        i += 1;
    }
    0
}

/// The chain's own tax on native transfers, in atomics of a [`Decimal`]:
/// five thousandths.
pub const LUNC_TAX_ATOMICS: u128 = 5_000_000_000_000_000;

/// The chain's own tax on native transfers.
pub fn lunc_tax() -> (d: Decimal)
    ensures
        d.atomics == LUNC_TAX_ATOMICS,
{
    Decimal::permille(5)
}

/// What of `amount` arrives once the chain has kept its transfer tax.
pub open spec fn after_lunc_tax(amount: u128) -> int {
    amount - (amount * LUNC_TAX_ATOMICS) / (DECIMAL_FRACTIONAL as int)
}

/// What of `amount` arrives once the chain has kept its transfer tax.
pub fn less_lunc_tax(amount: u128) -> (r: u128)
    ensures
        r == after_lunc_tax(amount),
        r <= amount,
{
    proof {
        lemma_share_bounded(amount, Decimal { atomics: LUNC_TAX_ATOMICS });
    }
    let tax: u128 = mul_decimal(amount, lunc_tax());
    amount - tax
}

/// The first of two verdicts that is a refusal.
pub open spec fn first_of(a: Option<StdError>, b: Option<StdError>) -> Option<StdError> {
    if a is Some {
        a
    } else {
        b
    }
}

/// What the host's address check makes of the addresses it is asked
/// about: it refuses those on record, each for a reason, and accepts every
/// other address as it is written.
#[derive(Debug)]
pub struct Api {
    rejected: AddrMap<StdError>,
}

impl Api {
    /// Whether the record is one that this type's own functions produce.
    pub closed spec fn wf(self) -> bool {
        self.rejected.wf()
    }

    /// Why `input` is refused, if it is.
    pub closed spec fn verdict(self, input: Seq<char>) -> Option<StdError> {
        if self.rejected.model().contains_key(input) {
            Some(self.rejected.model()[input])
        } else {
            None
        }
    }

    /// Why the first address of `list` from position `i` on that is refused
    /// is refused, if any is.
    pub open spec fn verdict_from(self, list: Seq<String>, i: int) -> Option<StdError>
        decreases list.len() - i,
    {
        if i < 0 || i >= list.len() {
            None
        } else if self.verdict(list[i]@) is Some {
            self.verdict(list[i]@)
        } else {
            self.verdict_from(list, i + 1)
        }
    }

    /// Why the first address of `list` that is refused is refused, if any
    /// is.
    pub open spec fn verdict_of_all(self, list: Seq<String>) -> Option<StdError> {
        self.verdict_from(list, 0)
    }

    /// A check that accepts every address.
    pub fn new() -> (api: Api)
        ensures
            api.wf(),
            forall|input: Seq<char>| api.verdict(input) is None,
    {
        Api { rejected: AddrMap::new() }
    }

    /// Puts on record that `input` is refused for `reason`.
    pub fn reject(&mut self, input: String, reason: StdError)
        requires
            old(self).wf(),
        ensures
            final(self).wf(),
            final(self).verdict(input@) == Some(reason),
            forall|other: Seq<char>|
                other != input@ ==> final(self).verdict(other) == old(self).verdict(other),
    {
        self.rejected.insert(input, reason);
    }

    /// The address `input` as the host accepts it, or the host's reason for
    /// refusing it.
    pub fn addr_validate(&self, input: &String) -> (r: Result<String, StdError>)
        requires
            self.wf(),
        ensures
            r == match self.verdict(input@) {
                Some(e) => Err::<String, StdError>(e),
                None => Ok::<String, StdError>(*input),
            },
    {
        match self.rejected.get(input) {
            Some(reason) => Err(reason.clone()),
            None => Ok(input.clone()),
        }
    }

    /// Checks every address of `list`, in order: the reason of the first
    /// that is refused, or nothing where all are accepted.
    pub fn validate_all(&self, list: &Vec<String>) -> (r: Result<(), StdError>)
        requires
            self.wf(),
        ensures
            r == match self.verdict_of_all(list@) {
                Some(e) => Err::<(), StdError>(e),
                None => Ok::<(), StdError>(()),
            },
    {
        let mut i: usize = 0;
        while i < list.len()
            invariant
                self.wf(),
                i <= list@.len(),
                self.verdict_of_all(list@) == self.verdict_from(list@, i as int),
            decreases list@.len() - i,
        {
            match self.rejected.get(&list[i]) {
                Some(reason) => {
                    return Err(reason.clone());
                },
                None => {},
            }
            i += 1;
        }
        Ok(())
    }
}

} // verus!
