//! The record-level decisions around Route53: which value a listing
//! reports for a record, and whether and how the record must be written.
use vstd::prelude::*;

use crate::config::{rr_type_code, RecordConfig, RecordType};
use crate::text::str_eq;

verus! {

/// A resource record set as Route53 lists it: its name, its type code
/// and its values.
#[derive(Debug, Clone)]
pub struct RecordSet {
    pub name: String,
    pub rr_type: String,
    pub values: Vec<String>,
}

/// The upsert of one record to one value: what is sent to Route53.
#[derive(Debug, Clone)]
pub struct UpsertChange {
    pub hosted_zone_id: String,
    pub name: String,
    pub rr_type: &'static str,
    pub ttl: i64,
    pub value: String,
}

/// What an update cycle does with one record.
#[derive(Debug)]
pub enum RecordUpdate {
    /// The record already holds the address.
    Unchanged,
    /// The record does not exist yet.
    Create(UpsertChange),
    /// The record holds another value.
    Replace { old: String, change: UpsertChange },
}

/// A name without its trailing dot, if it has one.
pub open spec fn normalized(name: Seq<char>) -> Seq<char> {
    if name.len() > 0 && name.last() == '.' {
        name.drop_last()
    } else {
        name
    }
}

/// A name with a trailing dot, as Route53 reports names.
pub open spec fn fully_qualified(name: Seq<char>) -> Seq<char> {
    if name.len() > 0 && name.last() == '.' {
        name
    } else {
        name.push('.')
    }
}

/// The value a listing reports for the record `name` of type `code`: the
/// first value of the first set listed, provided that set has that name
/// (trailing dots aside) and that type.
pub open spec fn current_value(sets: Seq<RecordSet>, name: Seq<char>, code: Seq<char>) -> Option<
    Seq<char>,
> {
    if sets.len() == 0 {
        None
    } else if normalized(sets[0].name@) != normalized(name) {
        None
    } else if sets[0].rr_type@ != code {
        None
    } else if sets[0].values@.len() == 0 {
        None
    } else {
        Some(sets[0].values@[0]@)
    }
}

/// Whether `change` writes `ip` into the record `record`.
pub open spec fn is_change_for(change: UpsertChange, record: RecordConfig, ip: Seq<char>) -> bool {
    &&& change.hosted_zone_id@ == record.hosted_zone_id@
    &&& change.name@ == record.name@
    &&& change.rr_type@ == rr_type_code(record.record_type)
    &&& change.ttl == record.ttl
    &&& change.value@ == ip
}

/// Whether an update leaves the record alone: exactly when it already
/// holds the address.
pub open spec fn is_unchanged(current: Option<Seq<char>>, ip: Seq<char>) -> bool {
    current == Some(ip)
}

/// `name` without one trailing dot, so that "host.example.com." and
/// "host.example.com" compare equal.
pub fn normalize_name(name: &str) -> (r: &str)
    ensures
        r@ == normalized(name@),
{
    let len = name.unicode_len();
    if len > 0 && name.get_char(len - 1) == '.' {
        let r = name.substring_char(0, len - 1);
        assert(r@ =~= name@.drop_last());
        r
    } else {
        name
    }
}

/// The current value of the record `name` of type `rr_type`, from the
/// listing Route53 gave when asked to start at that name and type: `None`
/// when the record does not exist.
pub fn current_record_value(sets: &Vec<RecordSet>, name: &str, rr_type: &str) -> (r: Option<String>)
    ensures
        match r {
            Some(v) => current_value(sets@, name@, rr_type@) == Some(v@),
            None => current_value(sets@, name@, rr_type@) is None,
        },
{
    if sets.len() == 0 {
        return None;
    }
    let set = &sets[0];
    let returned_name = normalize_name(set.name.as_str());
    let queried_name = normalize_name(name);
    if !str_eq(returned_name, queried_name) {
        return None;
    }
    if !str_eq(set.rr_type.as_str(), rr_type) {
        return None;
    }
    if set.values.len() == 0 {
        return None;
    }
    Some(set.values[0].clone())
}

/// The upsert that writes `ip` into `record`.
pub fn upsert_change(record: &RecordConfig, ip: &str) -> (c: UpsertChange)
    ensures
        is_change_for(c, *record, ip@),
        c.hosted_zone_id@ == record.hosted_zone_id@,
        c.name@ == record.name@,
        c.rr_type@ == rr_type_code(record.record_type),
        c.ttl == record.ttl,
        c.value@ == ip@,
{
    UpsertChange {
        hosted_zone_id: record.hosted_zone_id.clone(),
        name: record.name.clone(),
        rr_type: record.rr_type(),
        ttl: record.ttl,
        value: ip.to_owned(),
    }
}

/// Decides what to do with `record`, which now holds `current` (`None`
/// when it does not exist) and should hold `ip`: nothing when it already
/// does; otherwise an upsert of `ip`, a creation or a replacement of the
/// old value.
pub fn plan_update(record: &RecordConfig, current: Option<String>, ip: &str) -> (u: RecordUpdate)
    ensures
        match current {
            None => u matches RecordUpdate::Create(c) && is_change_for(c, *record, ip@),
            Some(old) => if old@ == ip@ {
                u is Unchanged
            } else {
                u matches RecordUpdate::Replace { old: o, change: c } && o == old && is_change_for(
                    c,
                    *record,
                    ip@,
                )
            },
        },
{
    match current {
        None => RecordUpdate::Create(upsert_change(record, ip)),
        Some(old) => {
            if str_eq(old.as_str(), ip) {
                RecordUpdate::Unchanged
            } else {
                RecordUpdate::Replace { old, change: upsert_change(record, ip) }
            }
        },
    }
}

/// An upsert planned for a record carries that record's hosted zone,
/// name, type code and configured ttl, whatever the ttl, and the new
/// address as its only value.
pub proof fn lemma_change_mirrors_record(change: UpsertChange, record: RecordConfig, ip: Seq<char>)
    requires
        is_change_for(change, record, ip),
    ensures
        change.hosted_zone_id@ == record.hosted_zone_id@,
        change.name@ == record.name@,
        change.ttl == record.ttl,
        change.value@ == ip,
        record.record_type == RecordType::A ==> change.rr_type@ == seq!['A'],
        record.record_type == RecordType::Aaaa ==> change.rr_type@ == seq!['A', 'A', 'A', 'A'],
{
}

/// A listing reports a value only for the record asked about: the first
/// set listed must carry the queried name (the two may differ only by one
/// trailing dot) and the queried type, and the value is that set's first
/// one. An empty listing reports nothing.
pub proof fn lemma_current_value_is_of_queried_record(
    sets: Seq<RecordSet>,
    name: Seq<char>,
    code: Seq<char>,
)
    ensures
        sets.len() == 0 ==> current_value(sets, name, code) is None,
        current_value(sets, name, code) is Some ==> {
            &&& sets.len() > 0
            &&& (sets[0].name@ == name || sets[0].name@ == name.push('.') || name
                == sets[0].name@.push('.'))
            &&& sets[0].rr_type@ == code
            &&& sets[0].values@.len() > 0
            &&& current_value(sets, name, code) == Some(sets[0].values@[0]@)
        },
{
    if current_value(sets, name, code) is Some {
        let listed = sets[0].name@;
        if listed.len() > 0 && listed.last() == '.' {
            if !(name.len() > 0 && name.last() == '.') {
                assert(listed =~= name.push('.'));
            } else {
                assert(listed =~= listed.drop_last().push('.'));
                assert(name =~= name.drop_last().push('.'));
            }
        } else if name.len() > 0 && name.last() == '.' {
            assert(name =~= listed.push('.'));
        }
    }
}

/// A listing whose first set is the queried record, under its name as
/// given or with Route53's trailing dot, reports that set's first value.
pub proof fn lemma_current_value_finds_record(sets: Seq<RecordSet>, name: Seq<char>, code: Seq<char>)
    requires
        sets.len() > 0,
        sets[0].name@ == name || sets[0].name@ == fully_qualified(name),
        sets[0].rr_type@ == code,
        sets[0].values@.len() > 0,
    ensures
        current_value(sets, name, code) == Some(sets[0].values@[0]@),
{
    lemma_trailing_dot_ignored(name);
}

/// Names compare equal whether or not they carry Route53's trailing dot.
pub proof fn lemma_trailing_dot_ignored(name: Seq<char>)
    ensures
        normalized(fully_qualified(name)) == normalized(name),
{
    if !(name.len() > 0 && name.last() == '.') {
        assert(name.push('.').drop_last() =~= name);
    }
}

/// Reading a record back after an upsert gives the written address, so
/// the next cycle leaves the record unchanged: the set that the upsert
/// stores, listed under the name as written or as Route53 reports it
/// (with a trailing dot), is found when the record is looked up.
pub proof fn lemma_read_after_upsert(
    record: RecordConfig,
    ip: Seq<char>,
    change: UpsertChange,
    stored: RecordSet,
)
    requires
        is_change_for(change, record, ip),
        stored.name@ == change.name@ || stored.name@ == fully_qualified(change.name@),
        stored.rr_type@ == change.rr_type@,
        stored.values@.len() == 1,
        stored.values@[0]@ == change.value@,
    ensures
        current_value(seq![stored], record.name@, rr_type_code(record.record_type)) == Some(ip),
        is_unchanged(current_value(seq![stored], record.name@, rr_type_code(record.record_type)), ip),
{
    lemma_trailing_dot_ignored(change.name@);
}

} // verus!
