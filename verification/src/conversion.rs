//! Currencies, amounts of them, and what they are worth.

use crate::number::{integer, negation, product, quotient, rounding, Expr};
use crate::text::same_text;
use vstd::hash_map::StringHashMap;
use vstd::pervasive::unreached;
use vstd::prelude::*;

verus! {

/// Sats in one bitcoin.
pub const SATS_PER_BTC: u64 = 100_000_000;

/// Identifies a government currency. The native one has the number zero.
#[derive(Clone, Copy, Debug, PartialEq, Eq, Structural)]
pub struct GovShitcoinId(pub usize);

/// What an amount is counted in.
#[derive(Clone, Copy, Debug, PartialEq, Eq, Structural)]
pub enum Currency {
    /// Hundred millionths of a bitcoin.
    Sats,
    /// A currency that some government issues.
    GovShitcoin(GovShitcoinId),
}

/// What one unit of a currency costs in the native currency.
pub type Price = Expr;

/// So much of some currency.
#[derive(Debug, PartialEq, Eq)]
pub struct Amount {
    pub value: Expr,
    pub currency: Currency,
}

impl Clone for Amount {
    fn clone(&self) -> (result: Amount)
        ensures
            result == *self,
    {
        Amount { value: self.value.clone(), currency: self.currency }
    }
}

impl std::ops::Neg for Amount {
    type Output = Amount;

    fn neg(self) -> (result: Amount) {
        Amount { value: self.value.negated(), currency: self.currency }
    }
}

impl vstd::std_specs::ops::NegSpecImpl for Amount {
    open spec fn obeys_neg_spec() -> bool {
        true
    }

    open spec fn neg_req(self) -> bool {
        true
    }

    open spec fn neg_spec(self) -> Amount {
        self.opposite()
    }
}

impl std::ops::Mul<Expr> for Amount {
    type Output = Amount;

    fn mul(self, rhs: Expr) -> (result: Amount) {
        Amount { value: self.value.times(rhs).rounded(), currency: self.currency }
    }
}

impl vstd::std_specs::ops::MulSpecImpl<Expr> for Amount {
    open spec fn obeys_mul_spec() -> bool {
        true
    }

    open spec fn mul_req(self, rhs: Expr) -> bool {
        true
    }

    open spec fn mul_spec(self, rhs: Expr) -> Amount {
        self.scaled(rhs)
    }
}

impl Amount {
    /// The amount with the other sign.
    pub open spec fn opposite(self) -> Amount {
        Amount { value: negation(self.value), currency: self.currency }
    }

    /// The amount times `factor`, in whole units.
    pub open spec fn scaled(self, factor: Expr) -> Amount {
        Amount { value: rounding(product(self.value, factor)), currency: self.currency }
    }
}

/// The currencies that the desk deals in, and what they are worth.
pub struct ConversionTable {
    rates: Vec<Price>,
    btc: Price,
    gov_shitcoins: StringHashMap<GovShitcoinId>,
}

impl ConversionTable {
    /// The prices of the currencies that were registered, in that order.
    pub closed spec fn rates(self) -> Seq<Price> {
        self.rates@
    }

    /// The price by which amounts of sats are converted.
    pub closed spec fn btc(self) -> Price {
        self.btc
    }

    /// The names under which government currencies are known.
    pub closed spec fn names(self) -> Map<Seq<char>, GovShitcoinId> {
        self.gov_shitcoins@
    }

    /// Whether the table has a price for a government currency.
    pub open spec fn prices(self, id: GovShitcoinId) -> bool {
        id.0 <= self.rates().len()
    }

    /// Whether the table can convert amounts of a currency.
    pub open spec fn knows(self, currency: Currency) -> bool {
        match currency {
            Currency::Sats => true,
            Currency::GovShitcoin(id) => self.prices(id),
        }
    }

    /// Every name stands for a currency that has a price.
    pub open spec fn valid(self) -> bool {
        forall|name: Seq<char>| #[trigger]
            self.names().contains_key(name) ==> self.prices(self.names()[name])
    }

    /// What one unit of a government currency costs in the native currency.
    pub open spec fn rate(self, id: GovShitcoinId) -> Price {
        if id.0 == 0 {
            integer(1)
        } else {
            self.rates()[id.0 - 1]
        }
    }

    /// An amount, converted to whole units of the native currency.
    pub open spec fn in_native(self, amount: Amount) -> Amount {
        Amount {
            value: match amount.currency {
                Currency::Sats => rounding(
                    product(quotient(amount.value, integer(SATS_PER_BTC)), self.btc()),
                ),
                Currency::GovShitcoin(id) => rounding(product(amount.value, self.rate(id))),
            },
            currency: Currency::GovShitcoin(GovShitcoinId(0)),
        }
    }

    /// The currency that a name stands for.
    pub open spec fn decoded(self, name: Seq<char>) -> Option<Currency> {
        if name == "sats"@ {
            Some(Currency::Sats)
        } else if self.names().contains_key(name) {
            Some(Currency::GovShitcoin(self.names()[name]))
        } else {
            None
        }
    }

    /// Whether `after` is this table with one more currency.
    pub open spec fn registers(
        self,
        rate: Price,
        name: Seq<char>,
        id: GovShitcoinId,
        after: ConversionTable,
    ) -> bool {
        &&& id.0 == self.rates().len() + 1
        &&& after.rates() == self.rates().push(rate)
        &&& after.btc() == self.btc()
        &&& after.names() == self.names().insert(name, id)
    }

    /// Whether `after` is this table with another entry in its price list.
    pub open spec fn reprices(self, id: GovShitcoinId, price: Price, after: ConversionTable) -> bool {
        &&& after.rates() == self.rates().update(id.0 as int, price)
        &&& after.btc() == self.btc()
        &&& after.names() == self.names()
    }

    /// Whether `after` is this table with another price for amounts of sats.
    pub open spec fn reprices_btc(self, price: Price, after: ConversionTable) -> bool {
        &&& after.rates() == self.rates()
        &&& after.btc() == price
        &&& after.names() == self.names()
    }

    /// A table that knows the native currency, under its name, and no other
    /// government currency.
    pub fn new(btc_price: Price, native_gov_shitcoin_name: String) -> (table: ConversionTable)
        ensures
            table.valid(),
            table.rates() == Seq::<Price>::empty(),
            table.btc() == quotient(btc_price, integer(SATS_PER_BTC)),
            table.names() == Map::<Seq<char>, GovShitcoinId>::empty().insert(
                native_gov_shitcoin_name@,
                GovShitcoinId(0),
            ),
    {
        let mut gov_shitcoins: StringHashMap<GovShitcoinId> = StringHashMap::new();
        gov_shitcoins.insert(native_gov_shitcoin_name, GovShitcoinId(0));
        ConversionTable {
            rates: Vec::new(),
            btc: btc_price.over(Expr::Integer(SATS_PER_BTC)),
            gov_shitcoins,
        }
    }

    /// The currency in which the desk keeps its books.
    pub fn native_currency(&self) -> (currency: Currency)
        ensures
            currency == Currency::GovShitcoin(GovShitcoinId(0)),
    {
        Currency::GovShitcoin(GovShitcoinId(0))
    }

    /// What one unit of a government currency costs in the native currency.
    pub fn shitcoin_rate(&self, id: GovShitcoinId) -> (rate: Price)
        requires
            self.prices(id),
        ensures
            rate == self.rate(id),
    {
        if id.0 == 0 {
            Expr::Integer(1)
        } else {
            self.rates[id.0 - 1].clone()
        }
    }

    /// Adds a government currency. A name that was taken stands for the new
    /// currency from now on.
    pub fn register_shitcoin(&mut self, rate: Price, name: String) -> (id: GovShitcoinId)
        ensures
            old(self).valid() ==> final(self).valid(),
            old(self).registers(rate, name@, id, *final(self)),
    {
        self.rates.push(rate);
        let id: usize = self.rates.len();
        let ghost new_name = name@;
        self.gov_shitcoins.insert(name, GovShitcoinId(id));
        proof {
            lemma_valid_kept(*old(self), *self, new_name, GovShitcoinId(id));
        }
        GovShitcoinId(id)
    }

    /// Replaces the entry of the price list that has the number of `id`,
    /// counting from zero.
    pub fn update_price(&mut self, id: GovShitcoinId, price: Price)
        requires
            id.0 < old(self).rates().len(),
        ensures
            old(self).valid() ==> final(self).valid(),
            old(self).reprices(id, price, *final(self)),
    {
        self.rates.set(id.0, price);
        proof {
            lemma_valid_kept(*old(self), *self, Seq::empty(), GovShitcoinId(0));
        }
    }

    /// Replaces the price by which amounts of sats are converted.
    pub fn update_btc_price(&mut self, price: Price)
        ensures
            old(self).valid() ==> final(self).valid(),
            old(self).reprices_btc(price, *final(self)),
    {
        self.btc = price;
        proof {
            lemma_valid_kept(*old(self), *self, Seq::empty(), GovShitcoinId(0));
        }
    }

    /// Converts an amount to whole units of the native currency.
    pub fn to_native(&self, amount: Amount) -> (native: Amount)
        requires
            self.knows(amount.currency),
        ensures
            native == self.in_native(amount),
    {
        match amount.currency {
            Currency::Sats => Amount {
                value: amount.value.over(Expr::Integer(SATS_PER_BTC)).times(
                    self.btc.clone(),
                ).rounded(),
                currency: self.native_currency(),
            },
            Currency::GovShitcoin(shitcoin_id) => Amount {
                value: amount.value.times(self.shitcoin_rate(shitcoin_id)).rounded(),
                currency: self.native_currency(),
            },
        }
    }

    /// Converts an amount of the native currency to whole units of another
    /// government currency.
    pub fn from_native(&self, amount: Expr, to: Currency) -> (converted: Amount)
        requires
            to is GovShitcoin,
            self.knows(to),
        ensures
            converted.value == rounding(quotient(amount, self.rate(to->GovShitcoin_0))),
            converted.currency == to,
    {
        match to {
            Currency::Sats => unreached(),
            Currency::GovShitcoin(shitcoin_id) => Amount {
                value: amount.over(self.shitcoin_rate(shitcoin_id)).rounded(),
                currency: to,
            },
        }
    }

    /// The currency that a name stands for, if any.
    pub fn decode_currency(&self, name: &str) -> (currency: Option<Currency>)
        ensures
            currency == self.decoded(name@),
            self.valid() ==> (currency matches Some(known) ==> self.knows(known)),
    {
        if same_text(name, "sats") {
            Some(Currency::Sats)
        } else {
            match self.gov_shitcoins.get(name) {
                Some(id) => Some(Currency::GovShitcoin(*id)),
                None => None,
            }
        }
    }
}

/// A table stays valid where its price list does not shrink and at most one
/// name is added, for a currency that has a price.
proof fn lemma_valid_kept(
    before: ConversionTable,
    after: ConversionTable,
    name: Seq<char>,
    id: GovShitcoinId,
)
    requires
        after.rates().len() >= before.rates().len(),
        after.names() == before.names() || (after.names() == before.names().insert(name, id)
            && after.prices(id)),
    ensures
        before.valid() ==> after.valid(),
{
    assert forall|known: Seq<char>| #[trigger]
        after.names().contains_key(known) && before.valid() implies after.prices(
        after.names()[known],
    ) by {
        if known != name {
            assert(before.names().contains_key(known));
        } else if after.names() == before.names() {
            assert(before.names().contains_key(known));
        }
    }
}

/// A change of a table.
pub enum Change {
    /// A currency is registered.
    Registered { rate: Price, name: Seq<char>, id: GovShitcoinId },
    /// An entry of the price list is replaced.
    Repriced { id: GovShitcoinId, price: Price },
    /// The price for amounts of sats is replaced.
    BtcRepriced { price: Price },
}

impl Change {
    /// Whether this change makes one table another.
    pub open spec fn leads(self, before: ConversionTable, after: ConversionTable) -> bool {
        match self {
            Change::Registered { rate, name, id } => before.registers(rate, name, id, after),
            Change::Repriced { id, price } => {
                &&& id.0 < before.rates().len()
                &&& before.reprices(id, price, after)
            },
            Change::BtcRepriced { price } => before.reprices_btc(price, after),
        }
    }
}

/// Whether `tables` are a new table and what the changes made of it, one after
/// the other.
pub open spec fn history(tables: Seq<ConversionTable>, changes: Seq<Change>) -> bool {
    &&& tables.len() == changes.len() + 1
    &&& tables[0].valid()
    &&& tables[0].rates().len() == 0
    &&& forall|i: int|
        0 <= i < changes.len() ==> (#[trigger] changes[i]).leads(tables[i], tables[i + 1])
}

/// How many of the changes register a currency.
pub open spec fn registrations(changes: Seq<Change>) -> nat
    decreases changes.len(),
{
    if changes.len() == 0 {
        0
    } else if changes.last() is Registered {
        registrations(changes.drop_last()) + 1
    } else {
        registrations(changes.drop_last())
    }
}

/// Law: whatever becomes of a table, it prices the native currency, at one, and
/// the currencies that were registered, and no others, and every name in it
/// stands for one of these.
pub proof fn tables_price_what_was_registered(
    tables: Seq<ConversionTable>,
    changes: Seq<Change>,
    id: GovShitcoinId,
)
    requires
        history(tables, changes),
    ensures
        tables.last().valid(),
        tables.last().rates().len() == registrations(changes),
        tables.last().prices(id) <==> id.0 <= registrations(changes),
        tables.last().rate(GovShitcoinId(0)) == integer(1),
    decreases changes.len(),
{
    if changes.len() > 0 {
        let before = tables.drop_last();
        let earlier = changes.drop_last();
        assert forall|i: int| 0 <= i < earlier.len() implies (#[trigger] earlier[i]).leads(
            before[i],
            before[i + 1],
        ) by {
            assert(earlier[i] == changes[i]);
        }
        tables_price_what_was_registered(before, earlier, id);
        let n = changes.len() - 1;
        assert(changes[n].leads(tables[n], tables[n + 1]));
        match changes[n] {
            Change::Registered { name, id: new, .. } => {
                lemma_valid_kept(tables[n], tables[n + 1], name, new);
            },
            _ => {
                lemma_valid_kept(tables[n], tables[n + 1], Seq::empty(), GovShitcoinId(0));
            },
        }
    }
}

/// Law: whatever is registered, the name of the sats stands for them.
pub proof fn sats_keep_their_name(table: ConversionTable)
    ensures
        table.decoded("sats"@) == Some(Currency::Sats),
{
}

/// Law: the native currency is worth one unit of itself in every table, and
/// every conversion ends in it.
pub proof fn native_currency_is_the_measure(table: ConversionTable, amount: Amount)
    ensures
        table.knows(Currency::GovShitcoin(GovShitcoinId(0))),
        table.rate(GovShitcoinId(0)) == integer(1),
        table.in_native(amount).currency == Currency::GovShitcoin(GovShitcoinId(0)),
{
}

/// Law: a currency that is registered gets a number of its own and the price
/// that it was registered with, and is found under its name, unless that is the
/// name of the sats.
pub proof fn registered_currency_is_found(
    before: ConversionTable,
    rate: Price,
    name: Seq<char>,
    id: GovShitcoinId,
    after: ConversionTable,
)
    requires
        before.registers(rate, name, id, after),
    ensures
        !before.prices(id),
        after.prices(id),
        after.rate(id) == rate,
        name != "sats"@ ==> after.decoded(name) == Some(Currency::GovShitcoin(id)),
{
}

/// Law: registering a currency changes neither what other names stand for nor
/// what amounts of the known currencies are worth.
pub proof fn registering_disturbs_nothing_else(
    before: ConversionTable,
    rate: Price,
    name: Seq<char>,
    id: GovShitcoinId,
    after: ConversionTable,
    other: Seq<char>,
    amount: Amount,
)
    requires
        before.registers(rate, name, id, after),
    ensures
        other != name ==> after.decoded(other) == before.decoded(other),
        before.knows(amount.currency) ==> after.knows(amount.currency),
        before.knows(amount.currency) ==> after.in_native(amount) == before.in_native(amount),
{
}

/// Law: replacing an entry of the price list changes the price of exactly one
/// currency, the one whose number is one larger than the number of the entry.
pub proof fn repricing_changes_one_price(
    before: ConversionTable,
    id: GovShitcoinId,
    price: Price,
    after: ConversionTable,
    other: GovShitcoinId,
)
    requires
        id.0 < before.rates().len(),
        before.reprices(id, price, after),
        before.prices(other),
    ensures
        after.rate(other) == (if other.0 == id.0 + 1 {
            price
        } else {
            before.rate(other)
        }),
{
}

/// Law: a new price of bitcoin changes what sats are worth, and nothing else.
pub proof fn repricing_btc_changes_sats_alone(
    before: ConversionTable,
    price: Price,
    after: ConversionTable,
    amount: Amount,
    name: Seq<char>,
)
    requires
        before.reprices_btc(price, after),
    ensures
        after.decoded(name) == before.decoded(name),
        amount.currency != Currency::Sats ==> after.in_native(amount) == before.in_native(amount),
        amount.currency == Currency::Sats ==> after.in_native(amount).value == rounding(
            product(quotient(amount.value, integer(SATS_PER_BTC)), price),
        ),
{
}

} // verus!
