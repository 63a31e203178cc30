//! Transactions: created in batches that share one reconciliation pass for
//! tags, unit types and unit costs, and read back by assembling three flat
//! row sets joined on the internal serial id.
use vstd::prelude::*;
use vstd::string::StrSliceExecFns;
use crate::dbx::DbxError;
use crate::decimal::{Decimal, canonical};
use crate::ids::{external_id_of, generate_id};
use crate::reconcile::{asks_for, distinct_keys, keys_of};
use crate::text::{KeyRule, normalize_name, normalized};
use crate::time::TimeRfc3339;

verus! {

#[derive(Clone, Copy, Debug, PartialEq, Eq, Structural)]
pub enum PaymentMethod {
    Card,
    Cash,
    Upi,
    Unknown,
}

/// `s` is the lower-case ASCII word `w`, up to ASCII case.
pub open spec fn same_word(s: Seq<char>, w: Seq<char>) -> bool {
    s.len() == w.len() && forall|i: int|
        0 <= i < s.len() ==> s[i] == w[i] || ('a' <= w[i] <= 'z' && s[i] as u32 + 32 == w[i] as u32)
}

/// The payment method a stored name denotes; an unknown name is `Unknown`.
pub open spec fn payment_method_of(s: Seq<char>) -> PaymentMethod {
    if same_word(s, "card"@) {
        PaymentMethod::Card
    } else if same_word(s, "cash"@) {
        PaymentMethod::Cash
    } else if same_word(s, "upi"@) {
        PaymentMethod::Upi
    } else {
        PaymentMethod::Unknown
    }
}

pub open spec fn payment_method_name(m: PaymentMethod) -> Seq<char> {
    match m {
        PaymentMethod::Card => "Card"@,
        PaymentMethod::Cash => "Cash"@,
        PaymentMethod::Upi => "Upi"@,
        PaymentMethod::Unknown => "Unknown"@,
    }
}

/// Whether `s` is the lower-case ASCII word `w`, up to ASCII case.
pub fn same_word_ascii(s: &str, w: &str) -> (r: bool)
    ensures
        r == same_word(s@, w@),
{
    let n = s.unicode_len();
    if n != w.unicode_len() {
        return false;
    }
    let mut i: usize = 0;
    while i < n
        invariant
            n == s@.len(),
            n == w@.len(),
            i <= n,
            forall|j: int|
                0 <= j < i ==> s@[j] == w@[j] || ('a' <= w@[j] <= 'z' && s@[j] as u32 + 32
                    == w@[j] as u32),
        decreases n - i,
    {
        let a = s.get_char(i);
        let b = w.get_char(i);
        if !(a == b || ('a' <= b && b <= 'z' && (a as u32) + 32 == b as u32)) {
            return false;
        }
        i = i + 1;
    }
    true
}

impl PaymentMethod {
    /// The method a stored name denotes, ignoring ASCII case; `Unknown` for
    /// any other name.
    pub fn from_name(s: &str) -> (r: PaymentMethod)
        ensures
            r == payment_method_of(s@),
    {
        if same_word_ascii(s, "card") {
            PaymentMethod::Card
        } else if same_word_ascii(s, "cash") {
            PaymentMethod::Cash
        } else if same_word_ascii(s, "upi") {
            PaymentMethod::Upi
        } else {
            PaymentMethod::Unknown
        }
    }

    /// The name the method is stored under.
    pub fn as_str(&self) -> (r: &'static str)
        ensures
            r@ == payment_method_name(*self),
    {
        match self {
            PaymentMethod::Card => "Card",
            PaymentMethod::Cash => "Cash",
            PaymentMethod::Upi => "Upi",
            PaymentMethod::Unknown => "Unknown",
        }
    }
}

#[derive(Clone, Debug)]
pub struct UnitCost {
    pub unit_type: String,
    pub unit: Decimal,
    pub cost_per_unit: Decimal,
}

/// Fields required for creating a transaction.
#[derive(Clone, Debug)]
pub struct TransactionForCreate {
    pub name: String,
    pub transaction_time: Option<TimeRfc3339>,
    pub remark: Option<String>,
    pub tags: Option<Vec<String>>,
    pub payment_method: PaymentMethod,
    pub unit_cost: Option<UnitCost>,
    pub seller_cost: Decimal,
    pub bill_id: Option<String>,
}

#[derive(Clone, Debug)]
pub struct Transaction {
    pub transaction_id: String,
    pub name: String,
    pub transaction_time: TimeRfc3339,
    pub remark: Option<String>,
    pub tags: Vec<String>,
    pub payment_method: PaymentMethod,
    pub unit_cost: Option<UnitCost>,
    pub seller_cost: Decimal,
    pub bill_id: Option<String>,
}

pub type Result<T> = std::result::Result<T, Error>;

#[derive(Clone, Debug)]
pub enum Error {
    TransactionNotUnique,
    Dbx(DbxError),
}

impl From<DbxError> for Error {
    fn from(value: DbxError) -> (r: Error) {
        match value {
            DbxError::UniqueViolation(_) => Error::TransactionNotUnique,
            other => Error::Dbx(other),
        }
    }
}

impl vstd::std_specs::convert::FromSpecImpl<DbxError> for Error {
    open spec fn obeys_from_spec() -> bool {
        true
    }

    open spec fn from_spec(v: DbxError) -> Error {
        match v {
            DbxError::UniqueViolation(_) => Error::TransactionNotUnique,
            other => Error::Dbx(other),
        }
    }
}

/// The unit-cost reference a transaction links to, as written to the store.
#[derive(Clone, Debug)]
pub struct UnitLink {
    pub unit: Decimal,
    /// Natural key of the unit type.
    pub unit_type: String,
    /// Canonical cost per unit.
    pub cost_per_unit: Decimal,
}

/// The rows that creating one transaction writes.
#[derive(Clone, Debug)]
pub struct TransactionInsert {
    pub transaction_id: String,
    pub name: String,
    pub remark: Option<String>,
    pub transaction_time: TimeRfc3339,
    pub payment_method: PaymentMethod,
    pub seller_cost: Decimal,
    pub bill_id: Option<String>,
    /// One tag key per declared tag, in order.
    pub tag_keys: Vec<String>,
    pub unit: Option<UnitLink>,
}

/// A (unit type, cost per unit) pair of the unit-cost reference table.
#[derive(Clone, Debug)]
pub struct UnitCostKey {
    pub unit_type: String,
    pub cost_per_unit: Decimal,
}

/// The tags a transaction declares.
pub open spec fn tags_of(t: TransactionForCreate) -> Seq<String> {
    match t.tags {
        Some(v) => v@,
        None => Seq::empty(),
    }
}

/// Every tag declared in the batch, in order.
pub open spec fn batch_tags(batch: Seq<TransactionForCreate>) -> Seq<String>
    decreases batch.len(),
{
    if batch.len() == 0 {
        Seq::empty()
    } else {
        batch_tags(batch.drop_last()) + tags_of(batch.last())
    }
}

/// Every unit type declared in the batch, in order.
pub open spec fn batch_unit_types(batch: Seq<TransactionForCreate>) -> Seq<String>
    decreases batch.len(),
{
    if batch.len() == 0 {
        Seq::empty()
    } else {
        let rest = batch_unit_types(batch.drop_last());
        match batch.last().unit_cost {
            Some(u) => rest.push(u.unit_type),
            None => rest,
        }
    }
}

/// The unit-cost reference keys of a batch, in order, with repeats.
pub open spec fn batch_unit_costs(batch: Seq<TransactionForCreate>) -> Seq<(Seq<char>, Decimal)>
    decreases batch.len(),
{
    if batch.len() == 0 {
        Seq::empty()
    } else {
        let rest = batch_unit_costs(batch.drop_last());
        match batch.last().unit_cost {
            Some(u) => rest.push(
                (normalized(u.unit_type@, KeyRule::CaseInsensitive), canonical(u.cost_per_unit)),
            ),
            None => rest,
        }
    }
}

pub open spec fn cost_keys(v: Seq<UnitCostKey>) -> Seq<(Seq<char>, Decimal)> {
    v.map_values(|k: UnitCostKey| (k.unit_type@, k.cost_per_unit))
}

/// The tag keys a declared tag list links to, one per tag.
pub open spec fn tag_keys_of(tags: Option<Vec<String>>) -> Seq<Seq<char>> {
    match tags {
        Some(v) => v@.map_values(|s: String| normalized(s@, KeyRule::CaseInsensitive)),
        None => Seq::empty(),
    }
}

/// `link` is the unit-cost link that the declared unit cost `u` asks for.
pub open spec fn links_unit(u: Option<UnitCost>, link: Option<UnitLink>) -> bool {
    match (u, link) {
        (Some(u), Some(l)) => l.unit == u.unit && l.unit_type@ == normalized(
            u.unit_type@,
            KeyRule::CaseInsensitive,
        ) && l.cost_per_unit == canonical(u.cost_per_unit),
        (None, None) => true,
        _ => false,
    }
}


/// A stored transaction row, with its payment method by name.
#[derive(Clone, Debug)]
pub struct TransactionRow {
    pub serial_id: i64,
    pub transaction_id: String,
    pub name: String,
    pub remark: Option<String>,
    pub transaction_time: TimeRfc3339,
    pub payment_method_name: String,
    pub seller_cost: Decimal,
    pub bill_id: Option<String>,
}

/// A stored transaction-to-tag link, with the tag by name.
#[derive(Clone, Debug)]
pub struct TagLinkRow {
    pub transaction_serial_id: i64,
    pub tag_name: String,
}

/// A stored transaction-to-unit-cost link, with the unit cost resolved.
#[derive(Clone, Debug)]
pub struct UnitLinkRow {
    pub transaction_serial_id: i64,
    pub unit: Decimal,
    pub cost_per_unit: Decimal,
    pub unit_type_name: String,
}

/// Everything that creating a batch writes: the reference keys to reconcile
/// once for the whole batch, and the rows of each transaction.
#[derive(Clone, Debug)]
pub struct TransactionBatchPlan {
    pub tags: Vec<String>,
    pub unit_types: Vec<String>,
    pub unit_costs: Vec<UnitCostKey>,
    pub rows: Vec<TransactionInsert>,
}

pub open spec fn opt_view(o: Option<String>) -> Option<Seq<char>> {
    match o {
        Some(s) => Some(s@),
        None => None,
    }
}

/// The names of the tags linked to the transaction `serial`, in link order.
pub open spec fn tags_for(links: Seq<TagLinkRow>, serial: i64) -> Seq<Seq<char>>
    decreases links.len(),
{
    if links.len() == 0 {
        Seq::empty()
    } else {
        let rest = tags_for(links.drop_last(), serial);
        if links.last().transaction_serial_id == serial {
            rest.push(links.last().tag_name@)
        } else {
            rest
        }
    }
}

/// The first unit-cost link of the transaction `serial`.
pub open spec fn unit_for(units: Seq<UnitLinkRow>, serial: i64) -> Option<UnitLinkRow>
    decreases units.len(),
{
    if units.len() == 0 {
        None
    } else if units[0].transaction_serial_id == serial {
        Some(units[0])
    } else {
        unit_for(units.drop_first(), serial)
    }
}

/// `c` is the unit cost that the link row `u` stands for.
pub open spec fn unit_cost_from(u: Option<UnitLinkRow>, c: Option<UnitCost>) -> bool {
    match (u, c) {
        (Some(u), Some(c)) => c.unit_type@ == u.unit_type_name@ && c.unit == u.unit
            && c.cost_per_unit == u.cost_per_unit,
        (None, None) => true,
        _ => false,
    }
}

/// `t` is the transaction that `row` and its links make.
pub open spec fn assembled_from(
    row: TransactionRow,
    links: Seq<TagLinkRow>,
    units: Seq<UnitLinkRow>,
    t: Transaction,
) -> bool {
    &&& t.transaction_id@ == row.transaction_id@
    &&& t.name@ == row.name@
    &&& t.transaction_time == row.transaction_time
    &&& opt_view(t.remark) == opt_view(row.remark)
    &&& keys_of(t.tags@) == tags_for(links, row.serial_id)
    &&& t.payment_method == payment_method_of(row.payment_method_name@)
    &&& unit_cost_from(unit_for(units, row.serial_id), t.unit_cost)
    &&& t.seller_cost == row.seller_cost
    &&& opt_view(t.bill_id) == opt_view(row.bill_id)
}

fn clone_opt(o: &Option<String>) -> (r: Option<String>)
    ensures
        opt_view(r) == opt_view(*o),
{
    match o {
        Some(s) => Some(s.clone()),
        None => None,
    }
}


/// `r` is the insert plan of `t` with `now` as the default time.
pub open spec fn planned_row(t: TransactionForCreate, now: TimeRfc3339, r: TransactionInsert) -> bool {
    &&& r.name@ == t.name@
    &&& opt_view(r.remark) == opt_view(t.remark)
    &&& r.transaction_time == (match t.transaction_time {
        Some(x) => x,
        None => now,
    })
    &&& r.payment_method == t.payment_method
    &&& r.seller_cost == t.seller_cost
    &&& opt_view(r.bill_id) == opt_view(t.bill_id)
    &&& keys_of(r.tag_keys@) == tag_keys_of(t.tags)
    &&& links_unit(t.unit_cost, r.unit)
    &&& exists|key: Seq<u8>| key.len() == 64 && r.transaction_id@ == external_id_of(key, 20)
}

fn tags_for_serial(links: &Vec<TagLinkRow>, serial: i64) -> (r: Vec<String>)
    ensures
        keys_of(r@) == tags_for(links@, serial),
{
    let mut r: Vec<String> = Vec::new();
    let mut i: usize = 0;
    while i < links.len()
        invariant
            i <= links.len(),
            keys_of(r@) == tags_for(links@.subrange(0, i as int), serial),
        decreases links.len() - i,
    {
        assert(links@.subrange(0, i + 1).drop_last() =~= links@.subrange(0, i as int));
        if links[i].transaction_serial_id == serial {
            let ghost before = r@;
            r.push(links[i].tag_name.clone());
            assert(keys_of(r@) =~= keys_of(before).push(links@[i as int].tag_name@));
        }
        i = i + 1;
    }
    assert(links@.subrange(0, links.len() as int) =~= links@);
    r
}

fn unit_for_serial(units: &Vec<UnitLinkRow>, serial: i64) -> (r: Option<UnitCost>)
    ensures
        unit_cost_from(unit_for(units@, serial), r),
{
    let mut i: usize = 0;
    assert(units@.subrange(0, units.len() as int) =~= units@);
    while i < units.len()
        invariant
            i <= units.len(),
            unit_for(units@, serial) == unit_for(units@.subrange(i as int, units.len() as int), serial),
        decreases units.len() - i,
    {
        let ghost sub = units@.subrange(i as int, units.len() as int);
        assert(sub.drop_first() =~= units@.subrange(i + 1, units.len() as int));
        if units[i].transaction_serial_id == serial {
            return Some(
                UnitCost {
                    unit_type: units[i].unit_type_name.clone(),
                    unit: units[i].unit,
                    cost_per_unit: units[i].cost_per_unit,
                },
            );
        }
        i = i + 1;
    }
    None
}

pub struct TransactionBmc;

impl TransactionBmc {
    fn generate_transaction_id() -> (r: String)
        ensures
            exists|key: Seq<u8>| key.len() == 64 && r@ == external_id_of(key, 20),
    {
        generate_id(20)
    }

    /// The rows that creating `t` writes: a fresh external id, the time
    /// defaulted to `now`, one tag key per declared tag and the unit-cost link.
    pub fn plan_row(t: TransactionForCreate, now: TimeRfc3339) -> (r: TransactionInsert)
        ensures
            r.name == t.name,
            r.remark == t.remark,
            r.transaction_time == (match t.transaction_time {
                Some(x) => x,
                None => now,
            }),
            r.payment_method == t.payment_method,
            r.seller_cost == t.seller_cost,
            r.bill_id == t.bill_id,
            keys_of(r.tag_keys@) == tag_keys_of(t.tags),
            links_unit(t.unit_cost, r.unit),
            exists|key: Seq<u8>| key.len() == 64 && r.transaction_id@ == external_id_of(key, 20),
    {
        let ghost declared = t.tags;
        let TransactionForCreate {
            name,
            transaction_time,
            remark,
            tags,
            payment_method,
            unit_cost,
            seller_cost,
            bill_id,
        } = t;
        let mut tag_keys: Vec<String> = Vec::new();
        match &tags {
            Some(v) => {
                let mut i: usize = 0;
                while i < v.len()
                    invariant
                        i <= v.len(),
                        keys_of(tag_keys@) =~= v@.subrange(0, i as int).map_values(
                            |s: String| normalized(s@, KeyRule::CaseInsensitive),
                        ),
                    decreases v.len() - i,
                {
                    let k = normalize_name(v[i].as_str(), KeyRule::CaseInsensitive);
                    let ghost before = tag_keys@;
                    tag_keys.push(k);
                    assert(keys_of(tag_keys@) =~= keys_of(before).push(
                        normalized(v@[i as int]@, KeyRule::CaseInsensitive),
                    ));
                    assert(v@.subrange(0, i + 1).map_values(
                        |s: String| normalized(s@, KeyRule::CaseInsensitive),
                    ) =~= v@.subrange(0, i as int).map_values(
                        |s: String| normalized(s@, KeyRule::CaseInsensitive),
                    ).push(normalized(v@[i as int]@, KeyRule::CaseInsensitive)));
                    i = i + 1;
                }
                assert(v@.subrange(0, v.len() as int) =~= v@);
            },
            None => {},
        }
        let unit = match &unit_cost {
            Some(u) => Some(
                UnitLink {
                    unit: u.unit,
                    unit_type: normalize_name(u.unit_type.as_str(), KeyRule::CaseInsensitive),
                    cost_per_unit: u.cost_per_unit.canonical(),
                },
            ),
            None => None,
        };
        let time = match transaction_time {
            Some(x) => x,
            None => now,
        };
        TransactionInsert {
            transaction_id: TransactionBmc::generate_transaction_id(),
            name,
            remark,
            transaction_time: time,
            payment_method,
            seller_cost,
            bill_id,
            tag_keys,
            unit,
        }
    }

    /// The distinct tag keys of a whole batch.
    pub fn tag_keys(batch: &Vec<TransactionForCreate>) -> (r: Vec<String>)
        ensures
            keys_of(r@).no_duplicates(),
            forall|k: Seq<char>|
                keys_of(r@).contains(k) <==> asks_for(
                    batch_tags(batch@),
                    KeyRule::CaseInsensitive,
                    k,
                ),
    {
        let mut all: Vec<String> = Vec::new();
        let mut i: usize = 0;
        while i < batch.len()
            invariant
                i <= batch.len(),
                all@ == batch_tags(batch@.subrange(0, i as int)),
            decreases batch.len() - i,
        {
            assert(batch@.subrange(0, i + 1).drop_last() =~= batch@.subrange(0, i as int));
            let ghost before = all@;
            match &batch[i].tags {
                Some(v) => {
                    let mut j: usize = 0;
                    while j < v.len()
                        invariant
                            j <= v.len(),
                            all@ =~= before + v@.subrange(0, j as int),
                        decreases v.len() - j,
                    {
                        all.push(v[j].clone());
                        j = j + 1;
                    }
                    assert(v@.subrange(0, v.len() as int) =~= v@);
                },
                None => {
                    assert(all@ =~= before + Seq::<String>::empty());
                },
            }
            i = i + 1;
        }
        assert(batch@.subrange(0, batch.len() as int) =~= batch@);
        distinct_keys(&all, KeyRule::CaseInsensitive)
    }

    /// The distinct unit-type keys of a whole batch.
    pub fn unit_type_keys(batch: &Vec<TransactionForCreate>) -> (r: Vec<String>)
        ensures
            keys_of(r@).no_duplicates(),
            forall|k: Seq<char>|
                keys_of(r@).contains(k) <==> asks_for(
                    batch_unit_types(batch@),
                    KeyRule::CaseInsensitive,
                    k,
                ),
    {
        let mut all: Vec<String> = Vec::new();
        let mut i: usize = 0;
        while i < batch.len()
            invariant
                i <= batch.len(),
                all@ == batch_unit_types(batch@.subrange(0, i as int)),
            decreases batch.len() - i,
        {
            assert(batch@.subrange(0, i + 1).drop_last() =~= batch@.subrange(0, i as int));
            match &batch[i].unit_cost {
                Some(u) => all.push(u.unit_type.clone()),
                None => {},
            }
            i = i + 1;
        }
        assert(batch@.subrange(0, batch.len() as int) =~= batch@);
        distinct_keys(&all, KeyRule::CaseInsensitive)
    }

    /// The distinct unit-cost keys of a whole batch: unit-type key and
    /// canonical cost per unit.
    pub fn unit_cost_keys(batch: &Vec<TransactionForCreate>) -> (r: Vec<UnitCostKey>)
        ensures
            cost_keys(r@).no_duplicates(),
            forall|k: (Seq<char>, Decimal)|
                cost_keys(r@).contains(k) <==> batch_unit_costs(batch@).contains(k),
    {
        let mut r: Vec<UnitCostKey> = Vec::new();
        let mut i: usize = 0;
        while i < batch.len()
            invariant
                i <= batch.len(),
                cost_keys(r@).no_duplicates(),
                forall|k: (Seq<char>, Decimal)|
                    cost_keys(r@).contains(k) <==> batch_unit_costs(
                        batch@.subrange(0, i as int),
                    ).contains(k),
            decreases batch.len() - i,
        {
            let ghost prev = batch_unit_costs(batch@.subrange(0, i as int));
            assert(batch@.subrange(0, i + 1).drop_last() =~= batch@.subrange(0, i as int));
            match &batch[i].unit_cost {
                Some(u) => {
                    let key = UnitCostKey {
                        unit_type: normalize_name(u.unit_type.as_str(), KeyRule::CaseInsensitive),
                        cost_per_unit: u.cost_per_unit.canonical(),
                    };
                    let ghost kv = (key.unit_type@, key.cost_per_unit);
                    let ghost now_all = batch_unit_costs(batch@.subrange(0, i + 1));
                    assert(now_all == prev.push(kv));
                    let mut found = false;
                    let mut j: usize = 0;
                    while j < r.len()
                        invariant
                            j <= r.len(),
                            kv == (key.unit_type@, key.cost_per_unit),
                            !found ==> forall|m: int| 0 <= m < j ==> cost_keys(r@)[m] != kv,
                            found ==> cost_keys(r@).contains(kv),
                        decreases r.len() - j,
                    {
                        let same_type = r[j].unit_type == key.unit_type;
                        let same_cost = r[j].cost_per_unit == key.cost_per_unit;
                        assert(same_type == (r@[j as int].unit_type@ == key.unit_type@));
                        assert(same_cost == (r@[j as int].cost_per_unit == key.cost_per_unit));
                        assert(cost_keys(r@)[j as int] == (
                            r@[j as int].unit_type@,
                            r@[j as int].cost_per_unit,
                        ));
                        if same_type && same_cost {
                            found = true;
                        }
                        j = j + 1;
                    }
                    let ghost old_r = cost_keys(r@);
                    if !found {
                        r.push(key);
                        assert(cost_keys(r@) =~= old_r.push(kv));
                    }
                    assert forall|k: (Seq<char>, Decimal)|
                        cost_keys(r@).contains(k) <==> now_all.contains(k) by {
                        if cost_keys(r@).contains(k) {
                            let m = choose|m: int| 0 <= m < cost_keys(r@).len() && cost_keys(r@)[m] == k;
                            if m < old_r.len() {
                                assert(old_r[m] == k);
                                assert(old_r.contains(k));
                                assert(prev.contains(k));
                                let q = choose|q: int| 0 <= q < prev.len() && prev[q] == k;
                                assert(now_all[q] == k);
                            } else {
                                assert(now_all[now_all.len() - 1] == k);
                            }
                        }
                        if now_all.contains(k) {
                            let q = choose|q: int| 0 <= q < now_all.len() && now_all[q] == k;
                            if q < prev.len() {
                                assert(prev[q] == k);
                                assert(old_r.contains(k));
                                let m = choose|m: int| 0 <= m < old_r.len() && old_r[m] == k;
                                assert(cost_keys(r@)[m] == k);
                            } else if found {
                            } else {
                                assert(cost_keys(r@)[cost_keys(r@).len() - 1] == k);
                            }
                        }
                    }
                },
                None => {},
            }
            i = i + 1;
        }
        assert(batch@.subrange(0, batch.len() as int) =~= batch@);
        r
    }

    /// The plan for creating a batch: one reconciliation of its tags, unit
    /// types and unit costs, then the rows of each transaction, with `now`
    /// for every transaction that gives no time.
    pub fn plan_create(batch: Vec<TransactionForCreate>, now: TimeRfc3339) -> (r: TransactionBatchPlan)
        ensures
            keys_of(r.tags@).no_duplicates(),
            forall|k: Seq<char>|
                keys_of(r.tags@).contains(k) <==> asks_for(
                    batch_tags(batch@),
                    KeyRule::CaseInsensitive,
                    k,
                ),
            keys_of(r.unit_types@).no_duplicates(),
            forall|k: Seq<char>|
                keys_of(r.unit_types@).contains(k) <==> asks_for(
                    batch_unit_types(batch@),
                    KeyRule::CaseInsensitive,
                    k,
                ),
            cost_keys(r.unit_costs@).no_duplicates(),
            forall|k: (Seq<char>, Decimal)|
                cost_keys(r.unit_costs@).contains(k) <==> batch_unit_costs(batch@).contains(k),
            r.rows@.len() == batch@.len(),
            forall|i: int|
                0 <= i < batch@.len() ==> planned_row(batch@[i], now, #[trigger] r.rows@[i]),
    {
        let tags = TransactionBmc::tag_keys(&batch);
        let unit_types = TransactionBmc::unit_type_keys(&batch);
        let unit_costs = TransactionBmc::unit_cost_keys(&batch);
        let ghost orig = batch@;
        let mut batch = batch;
        let mut rows: Vec<TransactionInsert> = Vec::new();
        assert(orig.subrange(0, orig.len() as int) =~= orig);
        while batch.len() > 0
            invariant
                batch@ == orig.subrange(0, batch@.len() as int),
                batch@.len() + rows@.len() == orig.len(),
                forall|j: int|
                    0 <= j < rows@.len() ==> planned_row(
                        orig[batch@.len() + j],
                        now,
                        #[trigger] rows@[j],
                    ),
            decreases batch.len(),
        {
            let ghost k = batch@.len() - 1;
            match batch.pop() {
                Some(t) => {
                    assert(t == orig[k]);
                    let row = TransactionBmc::plan_row(t, now);
                    let ghost before = rows@;
                    rows.insert(0, row);
                    assert forall|j: int| 0 <= j < rows@.len() implies planned_row(
                        orig[batch@.len() + j],
                        now,
                        #[trigger] rows@[j],
                    ) by {
                        if j > 0 {
                            assert(rows@[j] == before[j - 1]);
                        }
                    }
                },
                None => {},
            }
        }
        TransactionBatchPlan { tags, unit_types, unit_costs, rows }
    }

    /// The transactions that stored rows and their links make, in the order
    /// of `rows`: each gets the tags linked to its serial id, in link order,
    /// and the first unit cost linked to it.
    pub fn assemble(
        rows: &Vec<TransactionRow>,
        links: &Vec<TagLinkRow>,
        units: &Vec<UnitLinkRow>,
    ) -> (r: Vec<Transaction>)
        ensures
            r@.len() == rows@.len(),
            forall|i: int|
                0 <= i < rows@.len() ==> assembled_from(rows@[i], links@, units@, #[trigger] r@[i]),
    {
        let mut r: Vec<Transaction> = Vec::new();
        let mut i: usize = 0;
        while i < rows.len()
            invariant
                i <= rows.len(),
                r@.len() == i,
                forall|j: int|
                    0 <= j < i ==> assembled_from(rows@[j], links@, units@, #[trigger] r@[j]),
            decreases rows.len() - i,
        {
            let row = &rows[i];
            let t = Transaction {
                transaction_id: row.transaction_id.clone(),
                name: row.name.clone(),
                transaction_time: row.transaction_time,
                remark: clone_opt(&row.remark),
                tags: tags_for_serial(links, row.serial_id),
                payment_method: PaymentMethod::from_name(row.payment_method_name.as_str()),
                unit_cost: unit_for_serial(units, row.serial_id),
                seller_cost: row.seller_cost,
                bill_id: clone_opt(&row.bill_id),
            };
            r.push(t);
            i = i + 1;
        }
        r
    }
}

} // verus!
