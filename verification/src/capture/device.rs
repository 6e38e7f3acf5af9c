//! How input devices are named in a list somebody has to choose from.

use vstd::prelude::*;
use vstd::string::*;

use crate::text::{count_lead, lead, lemma_lead_bounds, same_text, strip_back, trim, trim_back, trimmed, CharClass};

verus! {

/// An input device, as the settings window lists it.
#[derive(Clone, Debug, PartialEq, Eq)]
pub struct DeviceInfo {
    /// Human-readable name, as the operating system spells it.
    pub name: String,
    /// The stable handle to store in settings.
    pub id: String,
    /// Whether this is the host's default input.
    pub is_default: bool,
}

/// ALSA's own discard device, spelled as its id.
pub open spec fn discard_id() -> Seq<char> {
    seq!['a', 'l', 's', 'a', ':', 'n', 'u', 'l', 'l']
}

/// ALSA's `null`, which is a bin rather than a microphone; matched on the whole id.
pub fn is_discard_device(id: &str) -> (discard: bool)
    ensures
        discard == (id@ == discard_id()),
{
    let null = "alsa:null";
    proof {
        reveal_strlit("alsa:null");
        assert(null@ =~= discard_id());
    }
    same_text(id, null)
}

/// An id with its host prefix, everything up to the first `:`, taken off.
pub open spec fn short_id_of(id: Seq<char>) -> Seq<char> {
    let k = lead(id, CharClass::NotColon);
    if k < id.len() {
        id.skip((k + 1) as int)
    } else {
        id
    }
}

/// An id with its host prefix taken off, for use inside a name.
pub fn short_id(id: &str) -> (short: String)
    ensures
        short@ == short_id_of(id@),
{
    let len = id.unicode_len();
    let k = count_lead(id, CharClass::NotColon);
    proof {
        lemma_lead_bounds(id@, CharClass::NotColon);
    }
    if k < len {
        String::from_str(id.substring_char(k + 1, len))
    } else {
        String::from_str(id)
    }
}

/// The name a list shows: white space and dangling separators trimmed off, and the short
/// id when nothing is left.
pub open spec fn tidy_name_of(raw: Seq<char>, id: Seq<char>) -> Seq<char> {
    let trimmed_name = trimmed(strip_back(trimmed(raw), CharClass::Separator));
    if trimmed_name.len() == 0 {
        short_id_of(id)
    } else {
        trimmed_name
    }
}

/// What to call a device in a list somebody has to choose from.
pub fn tidy_name(raw: &str, id: &str) -> (name: String)
    ensures
        name@ == tidy_name_of(raw@, id@),
{
    let trimmed_name = trim(trim_back(trim(raw), CharClass::Separator));
    if trimmed_name.unicode_len() == 0 {
        short_id(id)
    } else {
        String::from_str(trimmed_name)
    }
}

/// A row as plain values: the name, the id and whether it is the default.
pub type Row = (Seq<char>, Seq<char>, bool);

/// The fields of a device, as plain values.
pub open spec fn row_of(device: DeviceInfo) -> Row {
    (device.name@, device.id@, device.is_default)
}

/// The fields of every device, in order.
pub open spec fn rows_of(devices: Seq<DeviceInfo>) -> Seq<Row> {
    devices.map_values(|device: DeviceInfo| row_of(device))
}

/// How many of `rows` are called `name`.
pub open spec fn count_named(rows: Seq<Row>, name: Seq<char>) -> nat
    decreases rows.len(),
{
    if rows.len() == 0 {
        0
    } else {
        count_named(rows.drop_last(), name) + if rows.last().0 == name {
            1nat
        } else {
            0nat
        }
    }
}

/// A name with the part of the id that tells it apart.
pub open spec fn told_apart(name: Seq<char>, id: Seq<char>) -> Seq<char> {
    name + seq![' ', '('] + short_id_of(id) + seq![')']
}

/// What `row` becomes in a list of `rows`: renamed only when its name collides.
pub open spec fn disambiguated(rows: Seq<Row>, row: Row) -> Row {
    if count_named(rows, row.0) > 1 {
        (told_apart(row.0, row.1), row.1, row.2)
    } else {
        row
    }
}

/// How many of `devices` are called `name`.
fn count_name(devices: &[DeviceInfo], name: &String) -> (count: usize)
    ensures
        count as nat == count_named(rows_of(devices@), name@),
{
    let ghost rows = rows_of(devices@);
    let mut count: usize = 0;
    let mut j: usize = 0;
    while j < devices.len()
        invariant
            j <= devices@.len(),
            rows == rows_of(devices@),
            count as nat == count_named(rows.take(j as int), name@),
            count <= j,
        decreases devices@.len() - j,
    {
        proof {
            assert(rows.take(j + 1).drop_last() =~= rows.take(j as int));
            assert(rows.take(j + 1).last() == row_of(devices@[j as int]));
        }
        if devices[j].name == *name {
            count += 1;
        }
        j += 1;
    }
    proof {
        assert(rows.take(devices@.len() as int) =~= rows);
    }
    count
}

/// Give devices that share a name the part of their id that differs; nothing else changes.
pub fn disambiguate(devices: &mut [DeviceInfo])
    ensures
        final(devices)@.len() == old(devices)@.len(),
        forall|i: int|
            0 <= i < old(devices)@.len() ==> row_of(#[trigger] final(devices)@[i]) == disambiguated(
                rows_of(old(devices)@),
                row_of(old(devices)@[i]),
            ),
{
    let ghost before = devices@;
    let ghost rows = rows_of(before);
    let n = devices.len();
    let mut collides: Vec<bool> = Vec::new();
    let mut i: usize = 0;
    while i < n
        invariant
            n == devices@.len(),
            devices@ == before,
            rows == rows_of(before),
            i <= n,
            collides@.len() == i,
            forall|k: int| 0 <= k < i ==> #[trigger] collides@[k] == (count_named(rows, before[k].name@) > 1),
        decreases n - i,
    {
        let count = count_name(devices, &devices[i].name);
        collides.push(count > 1);
        i += 1;
    }
    let mut i: usize = 0;
    while i < n
        invariant
            n == devices@.len(),
            n == before.len(),
            rows == rows_of(before),
            i <= n,
            collides@.len() == n,
            forall|k: int| 0 <= k < n ==> #[trigger] collides@[k] == (count_named(rows, before[k].name@) > 1),
            forall|k: int| 0 <= k < i ==> row_of(#[trigger] devices@[k]) == disambiguated(rows, row_of(before[k])),
            forall|k: int| i <= k < n ==> #[trigger] devices@[k] == before[k],
        decreases n - i,
    {
        if collides[i] {
            let mut name = devices[i].name.clone();
            name.append(" (");
            let short = short_id(devices[i].id.as_str());
            name.append(short.as_str());
            name.append(")");
            proof {
                reveal_strlit(" (");
                reveal_strlit(")");
                assert(name@ =~= told_apart(before[i as int].name@, before[i as int].id@));
            }
            let row = DeviceInfo { name, id: devices[i].id.clone(), is_default: devices[i].is_default };
            devices[i] = row;
        }
        i += 1;
    }
}

/// The rows the host's enumeration gives, before names are told apart: the discard device
/// left out, names tidied, and the default marked.
pub open spec fn listed(found: Seq<(String, String)>, default_id: Option<String>) -> Seq<Row>
    decreases found.len(),
{
    if found.len() == 0 {
        Seq::empty()
    } else {
        let before = listed(found.drop_last(), default_id);
        let (name, id) = found.last();
        if id@ == discard_id() {
            before
        } else {
            before.push(
                (
                    tidy_name_of(name@, id@),
                    id@,
                    default_id is Some && default_id->0@ == id@,
                ),
            )
        }
    }
}

/// The list the settings window shows, from what the host enumerated: `(name, id)` per
/// device in the host's order, and the id of the host's default input if it has one.
pub fn device_rows(found: &Vec<(String, String)>, default_id: &Option<String>) -> (rows: Vec<
    DeviceInfo,
>)
    ensures
        rows@.len() == listed(found@, *default_id).len(),
        forall|i: int|
            0 <= i < rows@.len() ==> row_of(#[trigger] rows@[i]) == disambiguated(
                listed(found@, *default_id),
                listed(found@, *default_id)[i],
            ),
{
    let mut rows: Vec<DeviceInfo> = Vec::new();
    let mut i: usize = 0;
    while i < found.len()
        invariant
            i <= found@.len(),
            rows_of(rows@) == listed(found@.take(i as int), *default_id),
        decreases found@.len() - i,
    {
        proof {
            assert(found@.take(i + 1).drop_last() =~= found@.take(i as int));
        }
        let id = &found[i].1;
        if !is_discard_device(id.as_str()) {
            let is_default = match default_id {
                Some(default) => *default == *id,
                None => false,
            };
            let name = tidy_name(found[i].0.as_str(), id.as_str());
            let ghost before = rows@;
            rows.push(DeviceInfo { name, id: id.clone(), is_default });
            proof {
                assert(rows_of(rows@) =~= rows_of(before).push(row_of(rows@.last())));
            }
        } else {
            proof {
                assert(rows_of(rows@) =~= listed(found@.take(i + 1), *default_id));
            }
        }
        i += 1;
    }
    proof {
        assert(found@.take(found@.len() as int) =~= found@);
    }
    let ghost listed_rows = rows@;
    disambiguate(rows.as_mut_slice());
    proof {
        assert forall|i: int| 0 <= i < rows@.len() implies row_of(#[trigger] rows@[i]) == disambiguated(
            listed(found@, *default_id),
            listed(found@, *default_id)[i],
        ) by {
            assert(rows_of(listed_rows)[i] == row_of(listed_rows[i]));
        }
    }
    rows
}

} // verus!
