use std::collections::HashMap;
use vstd::prelude::*;

use crate::error::TableError;
use crate::text::same_text;

verus! {

/// One row of the venue's contract list, as the wire carries it. Prices are in
/// hundredths; dates are texts in the venue's datetime format.
#[derive(Debug, Clone)]
pub struct RawContractSpec {
    pub id: u64,
    pub label: String,
    pub is_call: Option<bool>,
    pub active: bool,
    pub strike_price: Option<u32>,
    pub min_increment: u32,
    pub date_live: String,
    pub date_expires: String,
    pub date_exercise: Option<String>,
    pub underlying_asset: String,
    pub collateral_asset: String,
    pub derivative_type: String,
    pub open_interest: Option<u32>,
    pub is_next_day: bool,
    pub multiplier: u32,
    pub is_ecp_only: bool,
}

/// The venue's contract list.
#[derive(Debug)]
pub struct RawContractSpecTable {
    pub data: Vec<RawContractSpec>,
}

/// A futures contract, carried as its raw record.
#[derive(Debug, Clone)]
pub struct FutureContractSpec(pub RawContractSpec);

/// A day-ahead swap, carried as its raw record.
#[derive(Debug, Clone)]
pub struct SwapSpec(pub RawContractSpec);

/// An options contract in normalized form.
#[derive(Debug, Clone)]
pub struct OptionContractSpec {
    pub id: u64,
    pub label: String,
    pub underlying: String,
    /// Hundredths of the currency unit, as on the wire: the strike is
    /// `strike_price / 100` units, exactly.
    pub strike_price: u64,
    pub is_call: bool,
    /// Seconds from the time of the build to expiry; the time to expiry in
    /// years is this divided by `SECONDS_PER_JULIAN_YEAR`.
    pub seconds_to_expiry: i64,
    pub open_interest: u32,
    pub multiplier: u32,
    /// Hundredths of the currency unit, as on the wire.
    pub min_increment: u32,
    pub active: bool,
    /// Seconds since the Unix epoch.
    pub date_live: i64,
    /// Seconds since the Unix epoch.
    pub date_expires: i64,
    pub collateral_asset: String,
    pub is_ecp_only: bool,
}

/// A normalized contract.
#[derive(Debug, Clone)]
pub enum ContractSpec {
    Future(FutureContractSpec),
    Option(OptionContractSpec),
    Swap(SwapSpec),
}

/// The length of a Julian year in seconds.
pub const SECONDS_PER_JULIAN_YEAR: i64 = 31556926;

/// The instant that a text in the venue's datetime format
/// (`%Y-%m-%d %H:%M:%S%z`) denotes, in seconds since the Unix epoch.
pub uninterp spec fn venue_timestamp(text: Seq<char>) -> Option<i64>;

/// Relies on chrono's DateTime::parse_from_str with the format
/// `%Y-%m-%d %H:%M:%S%z`, and DateTime::timestamp: the instant in seconds
/// since the Unix epoch, or nothing where the text does not fit the format.
#[verifier::external_body]
fn parse_venue_datetime(text: &str) -> (r: Option<i64>)
    ensures
        r == venue_timestamp(text@),
{
    chrono::DateTime::parse_from_str(text, "%Y-%m-%d %H:%M:%S%z").ok().map(|d| d.timestamp())
}

/// The options contract that a raw record with all option fields describes,
/// with the time to expiry counted from `now`.
pub open spec fn option_of(r: RawContractSpec, now: i64) -> OptionContractSpec {
    let expires = venue_timestamp(r.date_expires@)->0;
    OptionContractSpec {
        id: r.id,
        label: r.label,
        underlying: r.underlying_asset,
        strike_price: r.strike_price->0 as u64,
        is_call: r.is_call->0,
        seconds_to_expiry: (expires - now) as i64,
        open_interest: match r.open_interest {
            Some(n) => n,
            None => 0,
        },
        multiplier: r.multiplier,
        min_increment: r.min_increment,
        active: r.active,
        date_live: venue_timestamp(r.date_live@)->0,
        date_expires: expires,
        collateral_asset: r.collateral_asset,
        is_ecp_only: r.is_ecp_only,
    }
}

/// Whether the time to expiry of `r`, counted from `now`, fits in an `i64`.
pub open spec fn expiry_fits(r: RawContractSpec, now: i64) -> bool {
    let d = venue_timestamp(r.date_expires@)->0 - now;
    i64::MIN <= d <= i64::MAX
}

/// What normalizing one raw record gives, with the time to expiry counted
/// from `now`: the variant its derivative type selects, or the reason it
/// cannot be normalized.
#[verifier::opaque]
pub open spec fn normalized(r: RawContractSpec, now: i64) -> Result<ContractSpec, TableError> {
    if r.derivative_type@ == "day_ahead_swap"@ {
        Ok(ContractSpec::Swap(SwapSpec(r)))
    } else if r.derivative_type@ == "future_contract"@ {
        Ok(ContractSpec::Future(FutureContractSpec(r)))
    } else if r.derivative_type@ == "options_contract"@ {
        if r.strike_price is None {
            Err(TableError::MissingStrikePrice(r.id))
        } else if r.is_call is None {
            Err(TableError::MissingCallFlag(r.id))
        } else if venue_timestamp(r.date_expires@) is None {
            Err(TableError::BadDate(r.id, r.date_expires))
        } else if venue_timestamp(r.date_live@) is None {
            Err(TableError::BadDate(r.id, r.date_live))
        } else if !expiry_fits(r, now) {
            Err(TableError::BadDate(r.id, r.date_expires))
        } else {
            Ok(ContractSpec::Option(option_of(r, now)))
        }
    } else {
        Err(TableError::UnimplementedContractType(r.derivative_type))
    }
}

impl RawContractSpec {
    /// Normalizes this record, counting the time to expiry from `now`
    /// (seconds since the Unix epoch).
    pub fn normalize(self, now: i64) -> (r: Result<ContractSpec, TableError>)
        ensures
            r == normalized(self, now),
    {
        reveal(normalized);
        let kind = self.derivative_type.as_str();
        if same_text(kind, "day_ahead_swap") {
            Ok(ContractSpec::Swap(SwapSpec(self)))
        } else if same_text(kind, "future_contract") {
            Ok(ContractSpec::Future(FutureContractSpec(self)))
        } else if same_text(kind, "options_contract") {
            let strike = match self.strike_price {
                Some(s) => s,
                None => return Err(TableError::MissingStrikePrice(self.id)),
            };
            let is_call = match self.is_call {
                Some(c) => c,
                None => return Err(TableError::MissingCallFlag(self.id)),
            };
            let expires = match parse_venue_datetime(self.date_expires.as_str()) {
                Some(t) => t,
                None => return Err(TableError::BadDate(self.id, self.date_expires)),
            };
            let live = match parse_venue_datetime(self.date_live.as_str()) {
                Some(t) => t,
                None => return Err(TableError::BadDate(self.id, self.date_live)),
            };
            let seconds_to_expiry = match expires.checked_sub(now) {
                Some(d) => d,
                None => return Err(TableError::BadDate(self.id, self.date_expires)),
            };
            Ok(
                ContractSpec::Option(
                    OptionContractSpec {
                        id: self.id,
                        label: self.label,
                        underlying: self.underlying_asset,
                        strike_price: strike as u64,
                        is_call,
                        seconds_to_expiry,
                        open_interest: match self.open_interest {
                            Some(n) => n,
                            None => 0,
                        },
                        multiplier: self.multiplier,
                        min_increment: self.min_increment,
                        active: self.active,
                        date_live: live,
                        date_expires: expires,
                        collateral_asset: self.collateral_asset,
                        is_ecp_only: self.is_ecp_only,
                    },
                ),
            )
        } else {
            Err(TableError::UnimplementedContractType(self.derivative_type))
        }
    }
}

pub open spec fn id_of(c: ContractSpec) -> u64 {
    match c {
        ContractSpec::Future(f) => f.0.id,
        ContractSpec::Option(o) => o.id,
        ContractSpec::Swap(w) => w.0.id,
    }
}

pub open spec fn label_of(c: ContractSpec) -> Seq<char> {
    match c {
        ContractSpec::Future(f) => f.0.label@,
        ContractSpec::Option(o) => o.label@,
        ContractSpec::Swap(w) => w.0.label@,
    }
}

/// The position of the last contract in `s` with the given id, or -1.
pub open spec fn last_with_id(s: Seq<ContractSpec>, id: u64) -> int
    decreases s.len(),
{
    if s.len() == 0 {
        -1
    } else if id_of(s.last()) == id {
        s.len() - 1
    } else {
        last_with_id(s.drop_last(), id)
    }
}

/// The position of the last contract in `s` with the given label, or -1.
pub open spec fn last_with_label(s: Seq<ContractSpec>, label: Seq<char>) -> int
    decreases s.len(),
{
    if s.len() == 0 {
        -1
    } else if label_of(s.last()) == label {
        s.len() - 1
    } else {
        last_with_label(s.drop_last(), label)
    }
}

impl ContractSpec {
    pub fn id(&self) -> (r: u64)
        ensures
            r == id_of(*self),
    {
        match self {
            ContractSpec::Future(f) => f.0.id,
            ContractSpec::Option(o) => o.id,
            ContractSpec::Swap(w) => w.0.id,
        }
    }

    /// The options contract, if this is one.
    pub fn as_opt(self) -> (r: Option<OptionContractSpec>)
        ensures
            r is Some <==> self is Option,
            self matches ContractSpec::Option(o) ==> r == Some(o),
    {
        match self {
            ContractSpec::Option(o) => Some(o),
            _ => None,
        }
    }

    /// The options contract, if this is one, by reference.
    pub fn as_opt_ref(&self) -> (r: Option<&OptionContractSpec>)
        ensures
            r is Some <==> *self is Option,
            self matches ContractSpec::Option(o) ==> *r->0 == o,
    {
        match self {
            ContractSpec::Option(o) => Some(o),
            _ => None,
        }
    }

    pub fn label(&self) -> (r: &str)
        ensures
            r@ == label_of(*self),
    {
        match self {
            ContractSpec::Future(f) => f.0.label.as_str(),
            ContractSpec::Option(o) => o.label.as_str(),
            ContractSpec::Swap(w) => w.0.label.as_str(),
        }
    }
}

/// Contracts by id and by label. Each contract is stored once; both indices
/// resolve to positions in that one store, so a contract found either way is
/// the same record. Where several records share an id (or a label), the
/// later one is the one found.
#[derive(Debug, Clone)]
pub struct ContractSpecTable {
    records: Vec<ContractSpec>,
    id_table: HashMap<u64, usize>,
}

impl ContractSpecTable {
    /// The stored contracts, in the order of the source records.
    pub closed spec fn records(&self) -> Seq<ContractSpec> {
        self.records@
    }

    /// The id index maps each id to the position of its last contract.
    pub closed spec fn wf(&self) -> bool {
        &&& forall|id: u64| #[trigger]
            self.id_table@.contains_key(id) <==> last_with_id(self.records@, id) >= 0
        &&& forall|id: u64| #[trigger]
            self.id_table@.contains_key(id) ==> self.id_table@[id] == last_with_id(
                self.records@,
                id,
            )
    }

    /// The position that the id index gives for `id`, or -1.
    pub open spec fn slot_of_id(&self, id: u64) -> int {
        last_with_id(self.records(), id)
    }

    /// The position that the label index gives for `label`, or -1.
    pub open spec fn slot_of_label(&self, label: Seq<char>) -> int {
        last_with_label(self.records(), label)
    }

    /// The number of stored contracts.
    pub fn len(&self) -> (r: usize)
        ensures
            r == self.records().len(),
    {
        self.records.len()
    }

    /// The contract stored at position `slot`.
    pub fn get(&self, slot: usize) -> (r: Option<&ContractSpec>)
        ensures
            r is Some <==> slot < self.records().len(),
            r is Some ==> *r->0 == self.records()[slot as int],
    {
        if slot < self.records.len() {
            Some(&self.records[slot])
        } else {
            None
        }
    }

    /// The position of the contract with id `id`.
    pub fn slot_by_id(&self, id: u64) -> (r: Option<usize>)
        requires
            self.wf(),
        ensures
            r is Some <==> self.slot_of_id(id) >= 0,
            r is Some ==> r->0 == self.slot_of_id(id),
    {
        broadcast use vstd::std_specs::hash::group_hash_axioms;

        match self.id_table.get(&id) {
            Some(slot) => Some(*slot),
            None => None,
        }
    }

    /// The position of the contract labelled `label`.
    pub fn slot_by_label(&self, label: &str) -> (r: Option<usize>)
        ensures
            r is Some <==> self.slot_of_label(label@) >= 0,
            r is Some ==> r->0 == self.slot_of_label(label@),
    {
        let mut i: usize = self.records.len();
        assert(self.records@.subrange(0, i as int) =~= self.records@);
        while i > 0
            invariant
                i <= self.records@.len(),
                last_with_label(self.records@, label@) == last_with_label(
                    self.records@.subrange(0, i as int),
                    label@,
                ),
            decreases i,
        {
            let prefix = Ghost(self.records@.subrange(0, i as int));
            assert(prefix@.drop_last() =~= self.records@.subrange(0, i - 1));
            if same_text(self.records[i - 1].label(), label) {
                return Some(i - 1);
            }
            i -= 1;
        }
        None
    }

    /// The contract with id `id`.
    pub fn lookup_by_id(&self, id: u64) -> (r: Option<&ContractSpec>)
        requires
            self.wf(),
        ensures
            r is Some <==> self.slot_of_id(id) >= 0,
            r is Some ==> *r->0 == self.records()[self.slot_of_id(id)],
    {
        proof {
            lemma_last_with_id_bounds(self.records(), id);
        }
        match self.slot_by_id(id) {
            Some(slot) => self.get(slot),
            None => None,
        }
    }

    /// The contract labelled `label`.
    pub fn lookup_by_label(&self, label: &str) -> (r: Option<&ContractSpec>)
        ensures
            r is Some <==> self.slot_of_label(label@) >= 0,
            r is Some ==> *r->0 == self.records()[self.slot_of_label(label@)],
    {
        proof {
            lemma_last_with_label_bounds(self.records(), label@);
        }
        match self.slot_by_label(label) {
            Some(slot) => self.get(slot),
            None => None,
        }
    }
}

proof fn lemma_last_with_label_bounds(s: Seq<ContractSpec>, label: Seq<char>)
    ensures
        -1 <= last_with_label(s, label) < s.len(),
    decreases s.len(),
{
    if s.len() > 0 {
        lemma_last_with_label_bounds(s.drop_last(), label);
    }
}

proof fn lemma_last_with_id_bounds(s: Seq<ContractSpec>, id: u64)
    ensures
        -1 <= last_with_id(s, id) < s.len(),
    decreases s.len(),
{
    if s.len() > 0 {
        lemma_last_with_id_bounds(s.drop_last(), id);
    }
}

/// Every record of `data` normalizes, counting from `now`.
pub open spec fn all_normalize(data: Seq<RawContractSpec>, now: i64) -> bool {
    forall|i: int| 0 <= i < data.len() ==> (#[trigger] normalized(data[i], now)) is Ok
}

/// `t` holds, in order, the normalized form of each record of `data`, with
/// both indices in place.
pub open spec fn built_from(t: ContractSpecTable, data: Seq<RawContractSpec>, now: i64) -> bool {
    &&& t.wf()
    &&& all_normalize(data, now)
    &&& t.records().len() == data.len()
    &&& forall|i: int| 0 <= i < data.len() ==> t.records()[i] == (#[trigger] normalized(data[i], now))->Ok_0
}

/// Building from `data` at `now` gives `r`: the table where every record
/// normalizes, else the failure of the first record that does not.
pub open spec fn build_outcome(
    data: Seq<RawContractSpec>,
    now: i64,
    r: Result<ContractSpecTable, TableError>,
) -> bool {
    &&& r is Ok <==> all_normalize(data, now)
    &&& r is Ok ==> built_from(r->Ok_0, data, now)
    &&& r is Err ==> exists|i: int|
        0 <= i < data.len() && (forall|j: int| 0 <= j < i ==> (#[trigger] normalized(data[j], now)) is Ok)
            && normalized(data[i], now) == Err::<ContractSpec, TableError>(r->Err_0)
}

impl RawContractSpecTable {
    /// Normalizes every record and indexes the results by id and by label,
    /// counting times to expiry from `now` (seconds since the Unix epoch).
    pub fn sanitize_at(self, now: i64) -> (r: Result<ContractSpecTable, TableError>)
        ensures
            build_outcome(self.data@, now, r),
    {
        broadcast use vstd::std_specs::hash::group_hash_axioms;

        let data = Ghost(self.data@);
        let mut rest = self.data;
        let mut records: Vec<ContractSpec> = Vec::new();
        let mut id_table: HashMap<u64, usize> = HashMap::new();
        let n = rest.len();
        let mut i: usize = 0;
        while i < n
            invariant
                data@ == self.data@,
                n == data@.len(),
                i <= n,
                rest@ == data@.subrange(i as int, n as int),
                records@.len() == i,
                forall|k: int| 0 <= k < i ==> (#[trigger] normalized(data@[k], now)) is Ok,
                forall|k: int| 0 <= k < i ==> records@[k] == (#[trigger] normalized(data@[k], now))->Ok_0,
                forall|id: u64| #[trigger] id_table@.contains_key(id) <==> last_with_id(records@, id) >= 0,
                forall|id: u64| #[trigger] id_table@.contains_key(id) ==> id_table@[id] == last_with_id(records@, id),
            decreases n - i,
        {
            let raw = rest.remove(0);
            assert(raw == data@[i as int]);
            let c = match raw.normalize(now) {
                Ok(c) => c,
                Err(e) => {
                    assert(normalized(data@[i as int], now) == Err::<ContractSpec, TableError>(e));
                    return Err(e);
                },
            };
            let id = c.id();
            let old_records = Ghost(records@);
            records.push(c);
            assert(records@.drop_last() =~= old_records@);
            id_table.insert(id, i);
            assert(rest@ =~= data@.subrange(i + 1, n as int));
            i += 1;
        }
        let t = ContractSpecTable { records, id_table };
        assert(built_from(t, data@, now));
        Ok(t)
    }
}

proof fn lemma_last_with_id_is(s: Seq<ContractSpec>, id: u64, i: int)
    requires
        0 <= i < s.len(),
        id_of(s[i]) == id,
        forall|j: int| i < j < s.len() ==> id_of(#[trigger] s[j]) != id,
    ensures
        last_with_id(s, id) == i,
    decreases s.len(),
{
    if i < s.len() - 1 {
        assert(id_of(s[s.len() - 1]) != id);
        lemma_last_with_id_is(s.drop_last(), id, i);
    }
}

proof fn lemma_last_with_label_is(s: Seq<ContractSpec>, label: Seq<char>, i: int)
    requires
        0 <= i < s.len(),
        label_of(s[i]) == label,
        forall|j: int| i < j < s.len() ==> label_of(#[trigger] s[j]) != label,
    ensures
        last_with_label(s, label) == i,
    decreases s.len(),
{
    if i < s.len() - 1 {
        assert(label_of(s[s.len() - 1]) != label);
        lemma_last_with_label_is(s.drop_last(), label, i);
    }
}

/// Normalizing keeps a record's id and label.
pub proof fn lemma_normalized_keys(r: RawContractSpec, now: i64)
    requires
        normalized(r, now) is Ok,
    ensures
        id_of(normalized(r, now)->Ok_0) == r.id,
        label_of(normalized(r, now)->Ok_0) == r.label@,
{
    reveal(normalized);
}

/// An options record normalizes to an options contract whose strike price and
/// minimum increment are the wire's hundredths, unchanged: the prices in units
/// are exactly those values divided by 100.
pub proof fn lemma_option_prices(r: RawContractSpec, now: i64)
    requires
        r.derivative_type@ == "options_contract"@,
        normalized(r, now) is Ok,
    ensures
        normalized(r, now)->Ok_0 matches ContractSpec::Option(o) && o.strike_price == r.strike_price->0
            && o.min_increment == r.min_increment,
{
    reveal(normalized);
    reveal_strlit("options_contract");
    reveal_strlit("day_ahead_swap");
    reveal_strlit("future_contract");
    assert(r.derivative_type@.len() != "day_ahead_swap"@.len());
    assert(r.derivative_type@.len() != "future_contract"@.len());
}

/// In a table built from `data`, a record that no later record shares its id
/// or its label with is found by its id and by its label at the same
/// position, and what is stored there is that record, normalized.
pub proof fn lemma_indices_agree(t: ContractSpecTable, data: Seq<RawContractSpec>, now: i64, i: int)
    requires
        built_from(t, data, now),
        0 <= i < data.len(),
        forall|j: int|
            i < j < data.len() ==> (#[trigger] data[j]).id != data[i].id && data[j].label@
                != data[i].label@,
    ensures
        t.slot_of_id(data[i].id) == i,
        t.slot_of_label(data[i].label@) == i,
        t.records()[i] == normalized(data[i], now)->Ok_0,
{
    let s = t.records();
    assert(normalized(data[i], now) is Ok);
    lemma_normalized_keys(data[i], now);
    assert forall|j: int| i < j < s.len() implies id_of(#[trigger] s[j]) != data[i].id
        && label_of(s[j]) != data[i].label@ by {
        assert(normalized(data[j], now) is Ok);
        lemma_normalized_keys(data[j], now);
        assert(data[j].id != data[i].id);
    }
    lemma_last_with_id_is(s, data[i].id, i);
    lemma_last_with_label_is(s, data[i].label@, i);
}

/// In a table built from records whose ids are pairwise distinct and whose
/// labels are pairwise distinct, every record is found by its id and by its
/// label, at its own position in the one store.
pub proof fn lemma_all_resolve(t: ContractSpecTable, data: Seq<RawContractSpec>, now: i64)
    requires
        built_from(t, data, now),
        forall|i: int, j: int|
            0 <= i < j < data.len() ==> (#[trigger] data[i]).id != (#[trigger] data[j]).id
                && data[i].label@ != data[j].label@,
    ensures
        forall|i: int|
            0 <= i < data.len() ==> t.slot_of_id((#[trigger] data[i]).id) == i && t.slot_of_label(
                data[i].label@,
            ) == i,
{
    assert forall|i: int| 0 <= i < data.len() implies t.slot_of_id((#[trigger] data[i]).id) == i
        && t.slot_of_label(data[i].label@) == i by {
        assert forall|j: int| i < j < data.len() implies (#[trigger] data[j]).id != data[i].id
            && data[j].label@ != data[i].label@ by {
            assert(data[i].id != data[j].id);
        }
        lemma_indices_agree(t, data, now, i);
    }
}

/// An options record normalizes to an options contract whose time to expiry
/// is its expiry instant less `now`, in seconds: one Julian year ahead of
/// `now` gives exactly `SECONDS_PER_JULIAN_YEAR`.
pub proof fn lemma_option_expiry(r: RawContractSpec, now: i64)
    requires
        r.derivative_type@ == "options_contract"@,
        normalized(r, now) is Ok,
    ensures
        normalized(r, now)->Ok_0 matches ContractSpec::Option(o) && o.seconds_to_expiry
            == venue_timestamp(r.date_expires@)->0 - now && o.date_expires == venue_timestamp(
            r.date_expires@,
        )->0,
{
    lemma_option_prices(r, now);
    reveal(normalized);
}

} // verus!
