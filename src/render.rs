//! Human-readable renderings of agents, contracts and waypoints, as lines of
//! text: a long form for `info` and a one-line form for listings. Symbols of
//! the remote service are shown in double quotes.

use crate::records::{AgentInfo, ContractSession, Deliverable, Waypoint};
use crate::values::{WaypointTraitSymbolArg, WaypointTypeArg};
use vstd::prelude::*;

verus! {

pub open spec fn digit_char(d: nat) -> char {
    if d == 0 { '0' }
    else if d == 1 { '1' }
    else if d == 2 { '2' }
    else if d == 3 { '3' }
    else if d == 4 { '4' }
    else if d == 5 { '5' }
    else if d == 6 { '6' }
    else if d == 7 { '7' }
    else if d == 8 { '8' }
    else { '9' }
}

/// The decimal digits of `n`, without leading zeros.
pub open spec fn decimal(n: nat) -> Seq<char>
    decreases n,
{
    if n < 10 {
        seq![digit_char(n)]
    } else {
        decimal(n / 10).push(digit_char(n % 10))
    }
}

/// The decimal text of `i`, with a leading `-` when negative.
pub open spec fn signed_decimal(i: int) -> Seq<char> {
    if i < 0 {
        seq!['-'] + decimal((-i) as nat)
    } else {
        decimal(i as nat)
    }
}

/// `s` between double quotes.
pub open spec fn quoted(s: Seq<char>) -> Seq<char> {
    seq!['"'] + s + seq!['"']
}

pub open spec fn yes_no(b: bool) -> Seq<char> {
    if b { "yes"@ } else { "no"@ }
}

/// The parts joined with `sep` between neighbours.
pub open spec fn join(parts: Seq<Seq<char>>, sep: Seq<char>) -> Seq<char>
    decreases parts.len(),
{
    if parts.len() == 0 {
        Seq::empty()
    } else if parts.len() == 1 {
        parts[0]
    } else {
        join(parts.drop_last(), sep) + sep + parts.last()
    }
}

pub open spec fn rule() -> Seq<char> {
    "------------------------------"@
}

fn digit_text(d: u64) -> (r: &'static str)
    requires
        d < 10,
    ensures
        r@ == seq![digit_char(d as nat)],
{
    proof {
        reveal_strlit("0");
        reveal_strlit("1");
        reveal_strlit("2");
        reveal_strlit("3");
        reveal_strlit("4");
        reveal_strlit("5");
        reveal_strlit("6");
        reveal_strlit("7");
        reveal_strlit("8");
        reveal_strlit("9");
    }
    let r = if d == 0 { "0" }
    else if d == 1 { "1" }
    else if d == 2 { "2" }
    else if d == 3 { "3" }
    else if d == 4 { "4" }
    else if d == 5 { "5" }
    else if d == 6 { "6" }
    else if d == 7 { "7" }
    else if d == 8 { "8" }
    else { "9" };
    assert(r@ =~= seq![digit_char(d as nat)]);
    r
}

/// The decimal text of an unsigned number.
pub fn unsigned_text(n: u64) -> (r: String)
    ensures
        r@ == decimal(n as nat),
    decreases n,
{
    if n < 10 {
        String::from_str(digit_text(n))
    } else {
        let mut s = unsigned_text(n / 10);
        s.append(digit_text(n % 10));
        assert(s@ =~= decimal(n as nat));
        s
    }
}

/// The decimal text of a signed number.
pub fn signed_text(n: i64) -> (r: String)
    ensures
        r@ == signed_decimal(n as int),
{
    if n < 0 {
        let k: i64 = -(n + 1);
        let m: u64 = k as u64 + 1;
        let mut s = String::from_str("-");
        proof {
            reveal_strlit("-");
        }
        s.append(unsigned_text(m).as_str());
        assert(s@ =~= signed_decimal(n as int));
        s
    } else {
        unsigned_text(n as u64)
    }
}

fn quote(s: &str) -> (r: String)
    ensures
        r@ == quoted(s@),
{
    proof {
        reveal_strlit("\"");
    }
    let mut r = String::from_str("\"");
    r.append(s);
    r.append("\"");
    assert(r@ =~= quoted(s@));
    r
}

fn yes_no_text(b: bool) -> (r: &'static str)
    ensures
        r@ == yes_no(b),
{
    if b { "yes" } else { "no" }
}

/// Joins strings with a separator.
pub fn join_texts(parts: &Vec<String>, sep: &str) -> (r: String)
    ensures
        r@ == join(crate::command::words(parts@), sep@),
{
    let ghost w = crate::command::words(parts@);
    let mut r = String::new();
    let mut i: usize = 0;
    while i < parts.len()
        invariant
            w == crate::command::words(parts@),
            i <= parts.len(),
            r@ == join(w.take(i as int), sep@),
        decreases parts.len() - i,
    {
        assert(w.take(i + 1).drop_last() =~= w.take(i as int));
        if i > 0 {
            r.append(sep);
        }
        r.append(parts[i].as_str());
        i = i + 1;
        assert(r@ =~= join(w.take(i as int), sep@));
    }
    assert(w.take(i as int) =~= w);
    r
}

/// Two strings joined.
fn cat(a: &str, b: &str) -> (r: String)
    ensures
        r@ == a@ + b@,
{
    let mut r = String::from_str(a);
    r.append(b);
    r
}

/// The long form of an agent.
pub open spec fn agent_text(a: AgentInfo) -> Seq<Seq<char>> {
    let head = seq![
        Seq::<char>::empty(),
        "Agent: "@ + a.symbol@,
        rule(),
        "  Headquarters: "@ + a.headquarters@,
        "  Credits: "@ + signed_decimal(a.credits as int),
        "  Starting Faction: "@ + quoted(a.starting_faction@),
    ];
    match a.account_id {
        Some(id) => head.push("  Account ID: "@ + id@),
        None => head,
    }
}

pub fn agent_lines(a: &AgentInfo) -> (r: Vec<String>)
    ensures
        crate::command::words(r@) == agent_text(*a),
{
    let mut r: Vec<String> = Vec::new();
    r.push(String::new());
    r.push(cat("Agent: ", a.symbol.as_str()));
    r.push(String::from_str("------------------------------"));
    r.push(cat("  Headquarters: ", a.headquarters.as_str()));
    r.push(cat("  Credits: ", signed_text(a.credits).as_str()));
    r.push(cat("  Starting Faction: ", quote(a.starting_faction.as_str()).as_str()));
    match &a.account_id {
        Some(id) => r.push(cat("  Account ID: ", id.as_str())),
        None => {},
    }
    assert(crate::command::words(r@) =~= agent_text(*a));
    r
}

pub open spec fn deliverable_text(d: Deliverable) -> Seq<char> {
    "    "@ + decimal(d.units_fulfilled as nat) + " of "@ + decimal(d.units_required as nat) + " "@
        + quoted(d.trade_symbol@) + " to "@ + quoted(d.destination@)
}

fn deliverable_line(d: &Deliverable) -> (r: String)
    ensures
        r@ == deliverable_text(*d),
{
    let mut r = String::from_str("    ");
    r.append(unsigned_text(d.units_fulfilled).as_str());
    r.append(" of ");
    r.append(unsigned_text(d.units_required).as_str());
    r.append(" ");
    r.append(quote(d.trade_symbol.as_str()).as_str());
    r.append(" to ");
    r.append(quote(d.destination.as_str()).as_str());
    assert(r@ =~= deliverable_text(*d));
    r
}

/// The lines for the deliverables `ds`, in order.
pub open spec fn deliverables_text(ds: Seq<Deliverable>) -> Seq<Seq<char>> {
    ds.map_values(|d: Deliverable| deliverable_text(d))
}

/// The long form of a contract.
pub open spec fn contract_text(c: ContractSession) -> Seq<Seq<char>> {
    seq![
        Seq::<char>::empty(),
        "Contract ID: "@ + c.id@,
        rule(),
        "Type: "@ + quoted(c.contract_type@),
        "Faction: "@ + quoted(c.faction@),
        "Terms:"@,
        "  Deadline: "@ + c.terms.deadline@,
        "  Payment: "@ + decimal(c.terms.on_accepted as nat) + " up front, "@ + decimal(
            c.terms.on_fulfilled as nat,
        ) + " on completion"@,
        "  Deliverables:"@,
    ] + match c.terms.deliver {
        Some(ds) => deliverables_text(ds@),
        None => seq!["    None"@],
    } + seq!["Accepted: "@ + yes_no(c.accepted), "Fulfilled: "@ + yes_no(c.fulfilled), Seq::<char>::empty()]
}

pub fn contract_lines(c: &ContractSession) -> (r: Vec<String>)
    ensures
        crate::command::words(r@) == contract_text(*c),
{
    let mut r: Vec<String> = Vec::new();
    r.push(String::new());
    r.push(cat("Contract ID: ", c.id.as_str()));
    r.push(String::from_str("------------------------------"));
    r.push(cat("Type: ", quote(c.contract_type.as_str()).as_str()));
    r.push(cat("Faction: ", quote(c.faction.as_str()).as_str()));
    r.push(String::from_str("Terms:"));
    r.push(cat("  Deadline: ", c.terms.deadline.as_str()));
    let mut pay = cat("  Payment: ", unsigned_text(c.terms.on_accepted).as_str());
    pay.append(" up front, ");
    pay.append(unsigned_text(c.terms.on_fulfilled).as_str());
    pay.append(" on completion");
    r.push(pay);
    r.push(String::from_str("  Deliverables:"));
    let ghost head = crate::command::words(r@);
    assert(head =~= contract_text(*c).take(9));
    let ghost part = if c.terms.deliver is Some {
        deliverables_text(c.terms.deliver->0@)
    } else {
        seq!["    None"@]
    };
    match &c.terms.deliver {
        Some(ds) => {
            let mut i: usize = 0;
            while i < ds.len()
                invariant
                    i <= ds.len(),
                    crate::command::words(r@) == head + deliverables_text(ds@).take(i as int),
                decreases ds.len() - i,
            {
                let ghost before = crate::command::words(r@);
                r.push(deliverable_line(&ds[i]));
                assert(crate::command::words(r@) =~= before.push(deliverable_text(ds@[i as int])));
                i = i + 1;
                assert(deliverables_text(ds@).take(i as int) =~= deliverables_text(ds@).take(
                    i - 1,
                ).push(deliverable_text(ds@[i - 1])));
            }
            assert(deliverables_text(ds@).take(i as int) =~= deliverables_text(ds@));
        },
        None => {
            r.push(String::from_str("    None"));
            assert(crate::command::words(r@) =~= head + part);
        },
    }
    assert(crate::command::words(r@) == head + part);
    r.push(cat("Accepted: ", yes_no_text(c.accepted)));
    r.push(cat("Fulfilled: ", yes_no_text(c.fulfilled)));
    r.push(String::new());
    let ghost tail = seq![
        "Accepted: "@ + yes_no(c.accepted),
        "Fulfilled: "@ + yes_no(c.fulfilled),
        Seq::<char>::empty(),
    ];
    assert(crate::command::words(r@) =~= head + part + tail);
    assert(contract_text(*c) == contract_text(*c).take(9) + part + tail);
    assert(crate::command::words(r@) =~= contract_text(*c));
    r
}

/// The one-line form of a contract.
pub open spec fn contract_short_text(c: ContractSession) -> Seq<char> {
    "ID: "@ + c.id@ + " | Type: "@ + quoted(c.contract_type@) + " | Faction: "@ + quoted(c.faction@)
        + " | Accepted: "@ + yes_no(c.accepted) + " | Fulfilled: "@ + yes_no(c.fulfilled)
}

pub fn contract_line(c: &ContractSession) -> (r: String)
    ensures
        r@ == contract_short_text(*c),
{
    let mut r = cat("ID: ", c.id.as_str());
    r.append(" | Type: ");
    r.append(quote(c.contract_type.as_str()).as_str());
    r.append(" | Faction: ");
    r.append(quote(c.faction.as_str()).as_str());
    r.append(" | Accepted: ");
    r.append(yes_no_text(c.accepted));
    r.append(" | Fulfilled: ");
    r.append(yes_no_text(c.fulfilled));
    assert(r@ =~= contract_short_text(*c));
    r
}

/// Each string of `v` in double quotes.
pub open spec fn quoted_all(v: Seq<String>) -> Seq<Seq<char>> {
    v.map_values(|s: String| quoted(s@))
}

fn quote_all(v: &Vec<String>) -> (r: Vec<String>)
    ensures
        crate::command::words(r@) == quoted_all(v@),
{
    let mut r: Vec<String> = Vec::new();
    let mut i: usize = 0;
    while i < v.len()
        invariant
            i <= v.len(),
            r@.len() == i,
            forall|k: int| 0 <= k < i ==> #[trigger] r@[k]@ == quoted(v@[k]@),
        decreases v.len() - i,
    {
        r.push(quote(v[i].as_str()));
        i = i + 1;
    }
    assert(crate::command::words(r@) =~= quoted_all(v@));
    r
}

/// `parts` joined with commas, or `none` when there are no parts.
pub open spec fn list_or(parts: Seq<Seq<char>>, none: Seq<char>) -> Seq<char> {
    if parts.len() == 0 {
        none
    } else {
        join(parts, ", "@)
    }
}

fn list_or_text(parts: &Vec<String>, none: &str) -> (r: String)
    ensures
        r@ == list_or(crate::command::words(parts@), none@),
{
    if parts.len() == 0 {
        String::from_str(none)
    } else {
        join_texts(parts, ", ")
    }
}

/// The long form of a waypoint.
pub open spec fn waypoint_text(w: Waypoint) -> Seq<Seq<char>> {
    seq![
        "Waypoint: "@ + w.symbol@,
        rule(),
        "Type: "@ + quoted(w.waypoint_type@),
        "System Symbol: "@ + w.system_symbol@,
        "X: "@ + signed_decimal(w.x as int),
        "Y: "@ + signed_decimal(w.y as int),
        "Orbitals: "@ + list_or(crate::command::words(w.orbitals@), "None"@),
        "Traits: "@ + list_or(quoted_all(w.traits@), "None"@),
        "Faction: "@ + match w.faction {
            Some(f) => quoted(f@),
            None => "None"@,
        },
        "Chart: "@ + match w.chart {
            Some(c) => match c.submitted_by {
                Some(by) => by@,
                None => "Unknown"@,
            },
            None => "None"@,
        },
        Seq::<char>::empty(),
    ]
}

pub fn waypoint_lines(w: &Waypoint) -> (r: Vec<String>)
    ensures
        crate::command::words(r@) == waypoint_text(*w),
{
    let mut r: Vec<String> = Vec::new();
    r.push(cat("Waypoint: ", w.symbol.as_str()));
    r.push(String::from_str("------------------------------"));
    r.push(cat("Type: ", quote(w.waypoint_type.as_str()).as_str()));
    r.push(cat("System Symbol: ", w.system_symbol.as_str()));
    r.push(cat("X: ", signed_text(w.x).as_str()));
    r.push(cat("Y: ", signed_text(w.y).as_str()));
    r.push(cat("Orbitals: ", list_or_text(&w.orbitals, "None").as_str()));
    let traits = quote_all(&w.traits);
    r.push(cat("Traits: ", list_or_text(&traits, "None").as_str()));
    let faction = match &w.faction {
        Some(f) => quote(f.as_str()),
        None => String::from_str("None"),
    };
    r.push(cat("Faction: ", faction.as_str()));
    let chart = match &w.chart {
        Some(c) => match &c.submitted_by {
            Some(by) => by.clone(),
            None => String::from_str("Unknown"),
        },
        None => String::from_str("None"),
    };
    r.push(cat("Chart: ", chart.as_str()));
    r.push(String::new());
    assert(crate::command::words(r@) =~= waypoint_text(*w));
    r
}

/// The one-line form of a waypoint.
pub open spec fn waypoint_short_text(w: Waypoint) -> Seq<char> {
    w.symbol@ + " ["@ + quoted(w.waypoint_type@) + "] with traits "@ + list_or(
        quoted_all(w.traits@),
        "No traits"@,
    )
}

pub fn waypoint_line(w: &Waypoint) -> (r: String)
    ensures
        r@ == waypoint_short_text(*w),
{
    let mut r = cat(w.symbol.as_str(), " [");
    r.append(quote(w.waypoint_type.as_str()).as_str());
    r.append("] with traits ");
    let traits = quote_all(&w.traits);
    r.append(list_or_text(&traits, "No traits").as_str());
    assert(r@ =~= waypoint_short_text(*w));
    r
}

/// The heading of a waypoint listing.
pub open spec fn waypoints_heading_text(
    system: Seq<char>,
    t: Option<WaypointTypeArg>,
    tr: Option<WaypointTraitSymbolArg>,
) -> Seq<Seq<char>> {
    seq![
        Seq::<char>::empty(),
        "Waypoints in system "@ + system + match t {
            Some(x) => ", with type "@ + quoted(x.spec_symbol()),
            None => Seq::empty(),
        } + match tr {
            Some(x) => ", with trait "@ + quoted(x.spec_symbol()),
            None => Seq::empty(),
        },
        rule(),
    ]
}

pub fn waypoints_heading(
    system: &str,
    t: Option<WaypointTypeArg>,
    tr: Option<WaypointTraitSymbolArg>,
) -> (r: Vec<String>)
    ensures
        crate::command::words(r@) == waypoints_heading_text(system@, t, tr),
{
    let mut title = cat("Waypoints in system ", system);
    let ghost ta: Seq<char> = if t is Some {
        ", with type "@ + quoted(t->0.spec_symbol())
    } else {
        Seq::empty()
    };
    let ghost tb: Seq<char> = if tr is Some {
        ", with trait "@ + quoted(tr->0.spec_symbol())
    } else {
        Seq::empty()
    };
    match t {
        Some(x) => {
            title.append(", with type ");
            title.append(quote(x.symbol()).as_str());
        },
        None => {},
    }
    match tr {
        Some(x) => {
            title.append(", with trait ");
            title.append(quote(x.symbol()).as_str());
        },
        None => {},
    }
    assert(title@ =~= "Waypoints in system "@ + system@ + ta + tb);
    let mut r: Vec<String> = Vec::new();
    r.push(String::new());
    r.push(title);
    r.push(String::from_str("------------------------------"));
    assert(crate::command::words(r@) =~= waypoints_heading_text(system@, t, tr));
    r
}

} // verus!
