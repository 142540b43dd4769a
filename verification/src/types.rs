//! The values that the oracle works on.
use vstd::prelude::*;

verus! {

/// The most characters that a symbol may have.
pub const SYMBOL_LIMIT: usize = 32;

/// The number of characters in the textual form of an address.
pub const STRKEY_LENGTH: usize = 56;

/// A short name with a limited character set, such as `NGN` or `XLM_USD`.
#[derive(Clone, Copy, Debug, PartialEq, Eq)]
pub struct Symbol {
    /// The characters of the name, padded with zero bytes.
    pub name: [u8; 32],
}

/// An account or a contract, known by its textual key (`G...` or `C...`).
#[derive(Clone, Copy, Debug, PartialEq, Eq)]
pub struct Address {
    /// The characters of the key.
    pub strkey: [u8; 56],
}

/// Whether a byte may occur in a symbol: `a-z`, `A-Z`, `0-9` or `_`.
pub open spec fn is_symbol_byte(b: u8) -> bool {
    ||| 0x61 <= b <= 0x7a
    ||| 0x41 <= b <= 0x5a
    ||| 0x30 <= b <= 0x39
    ||| b == 0x5f
}

/// Whether a text is the name of a symbol.
pub open spec fn is_symbol_text(text: Seq<u8>) -> bool {
    &&& text.len() <= SYMBOL_LIMIT
    &&& forall|i: int| 0 <= i < text.len() ==> is_symbol_byte(#[trigger] text[i])
}

/// A text, followed by zero bytes up to the length that symbols are stored with.
pub open spec fn padded(text: Seq<u8>) -> Seq<u8> {
    Seq::new(
        SYMBOL_LIMIT as nat,
        |i: int|
            if i < text.len() {
                text[i]
            } else {
                0u8
            },
    )
}

/// Whether `text` is what stands in `stored` before the padding.
pub open spec fn is_unpadded(text: Seq<u8>, stored: Seq<u8>) -> bool {
    &&& text.len() <= stored.len()
    &&& text == stored.take(text.len() as int)
    &&& forall|i: int| 0 <= i < text.len() ==> #[trigger] text[i] != 0
    &&& text.len() < stored.len() ==> stored[text.len() as int] == 0
}

impl View for Symbol {
    type V = Seq<u8>;

    open spec fn view(&self) -> Seq<u8> {
        self.name@
    }
}

impl View for Address {
    type V = Seq<u8>;

    open spec fn view(&self) -> Seq<u8> {
        self.strkey@
    }
}

/// Tells whether a byte may occur in a symbol.
fn symbol_byte(b: u8) -> (valid: bool)
    ensures
        valid == is_symbol_byte(b),
{
    (0x61 <= b && b <= 0x7a) || (0x41 <= b && b <= 0x5a) || (0x30 <= b && b <= 0x39) || b == 0x5f
}

impl Symbol {
    /// Makes the symbol with the given name.
    ///
    /// There is none where the text is longer than 32 characters or holds a character other
    /// than `a-z`, `A-Z`, `0-9` and `_`.
    pub fn new(text: &[u8]) -> (symbol: Option<Symbol>)
        ensures
            symbol is Some <==> is_symbol_text(text@),
            symbol matches Some(symbol) ==> symbol@ == padded(text@),
    {
        if text.len() > SYMBOL_LIMIT {
            return None;
        }
        let mut name: [u8; 32] = [0u8; 32];
        let mut i: usize = 0;
        while i < text.len()
            invariant
                i <= text.len() <= SYMBOL_LIMIT,
                forall|j: int| 0 <= j < i ==> is_symbol_byte(#[trigger] text@[j]),
                forall|j: int| 0 <= j < i ==> #[trigger] name@[j] == text@[j],
                forall|j: int| i <= j < 32 ==> #[trigger] name@[j] == 0,
            decreases text.len() - i,
        {
            if !symbol_byte(text[i]) {
                return None;
            }
            name[i] = text[i];
            i += 1;
        }
        assert(name@ =~= padded(text@));
        Some(Symbol { name })
    }

    /// Returns the name of the symbol, without padding.
    pub fn text(&self) -> (text: Vec<u8>)
        ensures
            is_unpadded(text@, self@),
    {
        let mut text: Vec<u8> = Vec::new();
        let mut i: usize = 0;
        while i < SYMBOL_LIMIT && self.name[i] != 0
            invariant
                i <= SYMBOL_LIMIT,
                text@ == self@.take(i as int),
                forall|j: int| 0 <= j < i ==> #[trigger] self@[j] != 0,
            decreases SYMBOL_LIMIT - i,
        {
            text.push(self.name[i]);
            i += 1;
            assert(text@ =~= self@.take(i as int));
        }
        text
    }

    /// Tells whether two symbols are the same.
    pub fn same(&self, other: &Symbol) -> (same: bool)
        ensures
            same == (*self == *other),
    {
        let mut i: usize = 0;
        while i < SYMBOL_LIMIT
            invariant
                i <= SYMBOL_LIMIT,
                forall|j: int| 0 <= j < i ==> #[trigger] self.name@[j] == other.name@[j],
            decreases SYMBOL_LIMIT - i,
        {
            if self.name[i] != other.name[i] {
                assert(self.name@ != other.name@);
                return false;
            }
            i += 1;
        }
        assert(self.name =~= other.name);
        true
    }
}

impl Address {
    /// Makes the address with the given textual key; `None` unless it has 56 characters.
    pub fn new(strkey: &[u8]) -> (address: Option<Address>)
        ensures
            address is Some <==> strkey@.len() == STRKEY_LENGTH,
            address matches Some(address) ==> address@ == strkey@,
    {
        if strkey.len() != STRKEY_LENGTH {
            return None;
        }
        let mut key: [u8; 56] = [0u8; 56];
        let mut i: usize = 0;
        while i < STRKEY_LENGTH
            invariant
                i <= STRKEY_LENGTH,
                strkey@.len() == STRKEY_LENGTH,
                forall|j: int| 0 <= j < i ==> #[trigger] key@[j] == strkey@[j],
            decreases STRKEY_LENGTH - i,
        {
            key[i] = strkey[i];
            i += 1;
        }
        assert(key@ =~= strkey@);
        Some(Address { strkey: key })
    }

    /// Tells whether two addresses are the same.
    pub fn same(&self, other: &Address) -> (same: bool)
        ensures
            same == (*self == *other),
    {
        let mut i: usize = 0;
        while i < STRKEY_LENGTH
            invariant
                i <= STRKEY_LENGTH,
                forall|j: int| 0 <= j < i ==> #[trigger] self.strkey@[j] == other.strkey@[j],
            decreases STRKEY_LENGTH - i,
        {
            if self.strkey[i] != other.strkey[i] {
                assert(self.strkey@ != other.strkey@);
                return false;
            }
            i += 1;
        }
        assert(self.strkey =~= other.strkey);
        true
    }
}

/// The latest price of an asset, with its origin.
#[derive(Clone, Copy, Debug, PartialEq, Eq)]
pub struct PriceData {
    pub price: i128,
    /// When the price was stored, in seconds.
    pub timestamp: u64,
    /// Who supplied the price.
    pub provider: Address,
}

impl View for PriceData {
    type V = (i128, u64, Seq<u8>);

    open spec fn view(&self) -> (i128, u64, Seq<u8>) {
        (self.price, self.timestamp, self.provider@)
    }
}

/// Event emitted when a price is updated.
#[derive(Clone, Copy, Debug, PartialEq, Eq)]
pub struct PriceUpdated {
    pub source: Address,
    pub asset: Symbol,
    pub price: i128,
    pub timestamp: u64,
}

/// Event emitted when the admin address is changed.
#[derive(Clone, Copy, Debug, PartialEq, Eq)]
pub struct AdminChanged {
    pub previous_admin: Option<Address>,
    pub new_admin: Address,
}

/// The places of persistent storage that liquidity validation uses.
#[derive(Clone, Copy, Debug, PartialEq, Eq)]
pub enum DataKey {
    /// Minimum liquidity required for an asset, in stroops.
    LiquidityThreshold(Symbol),
    /// Liquidity that a provider last reported for an asset, in stroops.
    ProviderReportedLiquidity(Address, Symbol),
    /// When liquidity for an asset was last validated with success.
    LastLiquidityValidation(Symbol),
}

impl DataKey {
    /// Tells whether two keys are the same.
    pub fn same(&self, other: &DataKey) -> (same: bool)
        ensures
            same == (*self == *other),
    {
        match (self, other) {
            (DataKey::LiquidityThreshold(a), DataKey::LiquidityThreshold(b)) => a.same(b),
            (
                DataKey::ProviderReportedLiquidity(p, a),
                DataKey::ProviderReportedLiquidity(q, b),
            ) => p.same(q) && a.same(b),
            (DataKey::LastLiquidityValidation(a), DataKey::LastLiquidityValidation(b)) => a.same(b),
            _ => false,
        }
    }
}

/// What liquidity validation announces to those who watch the contract.
#[derive(Clone, Copy, Debug, PartialEq, Eq)]
pub enum LiquidityEvent {
    /// A submission was refused because the pool behind it is too small.
    Violation { asset: Symbol, provider: Address, reported_liquidity: i128, threshold: i128 },
    /// A submission met the threshold of its asset.
    Validated { asset: Symbol, provider: Address, reported_liquidity: i128, threshold: i128 },
    /// An asset was given a threshold.
    ThresholdSet { asset: Symbol, threshold: i128 },
    /// The threshold of an asset was taken away.
    ThresholdRemoved { asset: Symbol },
    /// A provider was slashed for a submission from a thin market.
    SlashExecuted {
        provider: Address,
        asset: Symbol,
        reported_liquidity: i128,
        threshold: i128,
        multiplier: i128,
        amount: i128,
    },
}

impl LiquidityEvent {
    /// The topic under which the event is published.
    pub open spec fn spec_topic(self) -> Seq<char> {
        match self {
            LiquidityEvent::Violation { .. } => "liquidity_violation"@,
            LiquidityEvent::Validated { .. } => "liquidity_validated"@,
            LiquidityEvent::ThresholdSet { .. } => "liquidity_threshold_set"@,
            LiquidityEvent::ThresholdRemoved { .. } => "liquidity_threshold_removed"@,
            LiquidityEvent::SlashExecuted { .. } => "liquidity_slash_executed"@,
        }
    }

    /// Returns the topic under which the event is published.
    pub fn topic(&self) -> (topic: &'static str)
        ensures
            topic@ == self.spec_topic(),
    {
        match self {
            LiquidityEvent::Violation { .. } => "liquidity_violation",
            LiquidityEvent::Validated { .. } => "liquidity_validated",
            LiquidityEvent::ThresholdSet { .. } => "liquidity_threshold_set",
            LiquidityEvent::ThresholdRemoved { .. } => "liquidity_threshold_removed",
            LiquidityEvent::SlashExecuted { .. } => "liquidity_slash_executed",
        }
    }
}

/// A step that the host carries out on behalf of the contract.
#[derive(Clone, Copy, Debug, PartialEq, Eq)]
pub enum Action {
    /// Abort the invocation unless the address has authorised it.
    RequireAuth(Address),
    /// Store the admin address.
    SetAdmin(Address),
    /// Store an amount.
    SetAmount(DataKey, i128),
    /// Delete an amount.
    RemoveAmount(DataKey),
    /// Store a point in time.
    SetTime(DataKey, u64),
    /// Store the price of an asset.
    StorePrice(Symbol, PriceData),
    /// Publish an event of liquidity validation.
    Publish(LiquidityEvent),
    /// Publish that a price was updated.
    PublishPrice(PriceUpdated),
}

} // verus!
