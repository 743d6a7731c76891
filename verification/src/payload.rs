//! The reply of the forecast service, read one level of JSON at a time.
//!
//! `serde_json` splits a text into the members of an object or the items of
//! an array and leaves each value as JSON text, which is read in turn where
//! the shape of the reply asks for it. What the reply must look like is said
//! here, over the results of those readings.

use serde_json::value::RawValue;
use serde_json::Number;
use std::collections::BTreeMap;
use vstd::prelude::*;
use vstd::string::StringExecFns;

verus! {

/// The members of the JSON object that `text` holds, each as its name and
/// the JSON text of its value, where `text` holds an object.
pub uninterp spec fn json_object(text: Seq<char>) -> Option<Seq<(Seq<char>, Seq<char>)>>;

/// The items of the JSON array that `text` holds, each as JSON text, where
/// `text` holds an array.
pub uninterp spec fn json_array(text: Seq<char>) -> Option<Seq<Seq<char>>>;

/// The characters of the JSON string that `text` holds, where it holds one.
pub uninterp spec fn json_string(text: Seq<char>) -> Option<Seq<char>>;

/// The JSON integer that `text` holds, where it holds one that fits `i64`.
pub uninterp spec fn json_integer(text: Seq<char>) -> Option<i64>;

/// Whether `text` holds a JSON number.
pub uninterp spec fn json_number(text: Seq<char>) -> bool;

/// `serde_json::from_str` into a map from names to raw values: the members
/// are those that `serde_json` reads from this text, and there are none
/// where it reports an error.
#[verifier::external_body]
pub(crate) fn read_object(text: &str) -> (read: Option<Vec<(String, String)>>)
    ensures
        match read {
            Some(members) => json_object(text@) == Some(members.deep_view()),
            None => json_object(text@) is None,
        },
{
    match serde_json::from_str::<BTreeMap<String, Box<RawValue>>>(text) {
        Ok(members) => Some(
            members.into_iter().map(|(name, raw)| (name, raw.get().to_owned())).collect(),
        ),
        Err(_) => None,
    }
}

/// `serde_json::from_str` into a vector of raw values: the items are those
/// that `serde_json` reads from this text, and there are none where it
/// reports an error.
#[verifier::external_body]
pub(crate) fn read_array(text: &str) -> (read: Option<Vec<String>>)
    ensures
        match read {
            Some(items) => json_array(text@) == Some(items.deep_view()),
            None => json_array(text@) is None,
        },
{
    match serde_json::from_str::<Vec<Box<RawValue>>>(text) {
        Ok(items) => Some(items.into_iter().map(|raw| raw.get().to_owned()).collect()),
        Err(_) => None,
    }
}

/// `serde_json::from_str` into a `String`: the characters are those that
/// `serde_json` reads from this text, and there are none where it reports an
/// error.
#[verifier::external_body]
pub(crate) fn read_string(text: &str) -> (read: Option<String>)
    ensures
        match read {
            Some(value) => json_string(text@) == Some(value@),
            None => json_string(text@) is None,
        },
{
    serde_json::from_str::<String>(text).ok()
}

/// `serde_json::from_str` into an `i64`: the integer is the one that
/// `serde_json` reads from this text, and there is none where it reports an
/// error.
#[verifier::external_body]
pub(crate) fn read_integer(text: &str) -> (read: Option<i64>)
    ensures
        read == json_integer(text@),
{
    serde_json::from_str::<i64>(text).ok()
}

/// `serde_json::from_str` into a `serde_json::Number`: whether `serde_json`
/// reads a number from this text.
#[verifier::external_body]
pub(crate) fn holds_number(text: &str) -> (holds: bool)
    ensures
        holds == json_number(text@),
{
    serde_json::from_str::<Number>(text).is_ok()
}

/// The JSON text of the first member called `name`.
pub open spec fn member(members: Seq<(Seq<char>, Seq<char>)>, name: Seq<char>) -> Option<
    Seq<char>,
>
    decreases members.len(),
{
    if members.len() == 0 {
        None
    } else if members[0].0 == name {
        Some(members[0].1)
    } else {
        member(members.drop_first(), name)
    }
}

/// The member called `name`, read as a string.
pub open spec fn string_member(members: Seq<(Seq<char>, Seq<char>)>, name: Seq<char>) -> Option<
    Seq<char>,
> {
    match member(members, name) {
        Some(text) => json_string(text),
        None => None,
    }
}

/// The member called `name`, read as an integer.
pub open spec fn integer_member(members: Seq<(Seq<char>, Seq<char>)>, name: Seq<char>) -> Option<
    i64,
> {
    match member(members, name) {
        Some(text) => json_integer(text),
        None => None,
    }
}

/// Whether there is a member called `name` that holds a number.
pub open spec fn number_member(members: Seq<(Seq<char>, Seq<char>)>, name: Seq<char>) -> bool {
    match member(members, name) {
        Some(text) => json_number(text),
        None => false,
    }
}

/// Whether `text` holds one share of the generation mix: an object with a
/// string `fuel` and a number `perc`.
pub open spec fn is_mix_share(text: Seq<char>) -> bool {
    match json_object(text) {
        Some(members) => string_member(members, "fuel"@) is Some && number_member(
            members,
            "perc"@,
        ),
        None => false,
    }
}

/// Whether `text` holds a generation mix: an array of shares.
pub open spec fn is_mix(text: Seq<char>) -> bool {
    match json_array(text) {
        Some(shares) => forall|i: int| 0 <= i < shares.len() ==> is_mix_share(#[trigger] shares[i]),
        None => false,
    }
}

/// The forecast of the intensity object that `text` holds: an object with
/// an integer `forecast` and a string `index`.
pub open spec fn forecast_of(text: Seq<char>) -> Option<i64> {
    match json_object(text) {
        Some(members) => if string_member(members, "index"@) is Some {
            integer_member(members, "forecast"@)
        } else {
            None
        },
        None => None,
    }
}

/// The part of one entry of the reply that is kept: the two ends of the
/// interval as the service wrote them, and the forecast.
#[derive(Clone, Debug, PartialEq, Eq)]
pub struct RawEntry {
    pub from: String,
    pub to: String,
    pub forecast: i64,
}

/// A `RawEntry` as a mathematical value.
pub struct RawEntryView {
    pub from: Seq<char>,
    pub to: Seq<char>,
    pub forecast: i64,
}

impl View for RawEntry {
    type V = RawEntryView;

    open spec fn view(&self) -> RawEntryView {
        RawEntryView { from: self.from@, to: self.to@, forecast: self.forecast }
    }
}

impl DeepView for RawEntry {
    type V = RawEntryView;

    open spec fn deep_view(&self) -> RawEntryView {
        self@
    }
}

/// The forecast of the member `intensity`.
pub open spec fn intensity_member(members: Seq<(Seq<char>, Seq<char>)>) -> Option<i64> {
    match member(members, "intensity"@) {
        Some(text) => forecast_of(text),
        None => None,
    }
}

/// Whether the member `generationmix` is there and holds a generation mix.
pub open spec fn mix_member(members: Seq<(Seq<char>, Seq<char>)>) -> bool {
    match member(members, "generationmix"@) {
        Some(text) => is_mix(text),
        None => false,
    }
}

/// The entry that `text` holds: an object with strings `from` and `to`, an
/// intensity object under `intensity` and a generation mix under
/// `generationmix`. Other members are passed over.
pub open spec fn entry_of(text: Seq<char>) -> Option<RawEntryView> {
    match json_object(text) {
        Some(members) => {
            let from = string_member(members, "from"@);
            let to = string_member(members, "to"@);
            let forecast = intensity_member(members);
            if from is Some && to is Some && forecast is Some && mix_member(members) {
                Some(RawEntryView { from: from->0, to: to->0, forecast: forecast->0 })
            } else {
                None
            }
        },
        None => None,
    }
}

/// The entries that `items` hold, in their order, where each holds one.
pub open spec fn entries_of_items(items: Seq<Seq<char>>) -> Option<Seq<RawEntryView>> {
    if forall|i: int| 0 <= i < items.len() ==> entry_of(#[trigger] items[i]) is Some {
        Some(Seq::new(items.len(), |i: int| entry_of(items[i])->0))
    } else {
        None
    }
}

/// The entries of the region object that `text` holds: an object with an
/// integer `regionid`, strings `dnoregion`, `shortname` and `postcode`, and
/// an array of entries under `data`.
pub open spec fn entries_of_region(text: Seq<char>) -> Option<Seq<RawEntryView>> {
    match json_object(text) {
        Some(members) => {
            if integer_member(members, "regionid"@) is Some && string_member(
                members,
                "dnoregion"@,
            ) is Some && string_member(members, "shortname"@) is Some && string_member(
                members,
                "postcode"@,
            ) is Some {
                match member(members, "data"@) {
                    Some(list) => match json_array(list) {
                        Some(items) => entries_of_items(items),
                        None => None,
                    },
                    None => None,
                }
            } else {
                None
            }
        },
        None => None,
    }
}

/// The entries of the reply `body`: an object whose member `data` holds the
/// region object. There are none where `body` is not JSON of that shape.
pub open spec fn entries_of(body: Seq<char>) -> Option<Seq<RawEntryView>> {
    match json_object(body) {
        Some(members) => match member(members, "data"@) {
            Some(region) => entries_of_region(region),
            None => None,
        },
        None => None,
    }
}

/// Finds the first member called `name` and hands out the JSON text of its
/// value.
pub fn find_member<'a>(members: &'a Vec<(String, String)>, name: &str) -> (found: Option<
    &'a String,
>)
    ensures
        match found {
            Some(text) => member(members.deep_view(), name@) == Some(text@),
            None => member(members.deep_view(), name@) is None,
        },
{
    let wanted = String::from_str(name);
    let ghost all = members.deep_view();
    let mut i: usize = 0;
    assert(all.skip(0) =~= all);
    while i < members.len()
        invariant
            i <= members.len(),
            wanted@ == name@,
            all == members.deep_view(),
            member(all, name@) == member(all.skip(i as int), name@),
        decreases members.len() - i,
    {
        assert(all.skip(i as int)[0] == all[i as int]);
        assert(all[i as int] == (members@[i as int].0@, members@[i as int].1@));
        if members[i].0 == wanted {
            return Some(&members[i].1);
        }
        assert(all.skip(i as int).drop_first() =~= all.skip(i + 1));
        i += 1;
    }
    None
}

/// Reads the member called `name` as a string.
pub fn read_string_member(members: &Vec<(String, String)>, name: &str) -> (read: Option<String>)
    ensures
        match read {
            Some(value) => string_member(members.deep_view(), name@) == Some(value@),
            None => string_member(members.deep_view(), name@) is None,
        },
{
    match find_member(members, name) {
        Some(text) => read_string(text.as_str()),
        None => None,
    }
}

/// Reads the member called `name` as an integer.
pub fn read_integer_member(members: &Vec<(String, String)>, name: &str) -> (read: Option<i64>)
    ensures
        read == integer_member(members.deep_view(), name@),
{
    match find_member(members, name) {
        Some(text) => read_integer(text.as_str()),
        None => None,
    }
}

/// Tells whether there is a member called `name` that holds a number.
pub fn has_number_member(members: &Vec<(String, String)>, name: &str) -> (has: bool)
    ensures
        has == number_member(members.deep_view(), name@),
{
    match find_member(members, name) {
        Some(text) => holds_number(text.as_str()),
        None => false,
    }
}

/// Tells whether `text` holds one share of the generation mix.
pub fn holds_mix_share(text: &str) -> (holds: bool)
    ensures
        holds == is_mix_share(text@),
{
    match read_object(text) {
        Some(members) => {
            let fuel = read_string_member(&members, "fuel");
            fuel.is_some() && has_number_member(&members, "perc")
        },
        None => false,
    }
}

/// Tells whether `text` holds a generation mix.
pub fn holds_mix(text: &str) -> (holds: bool)
    ensures
        holds == is_mix(text@),
{
    match read_array(text) {
        Some(shares) => {
            let mut i: usize = 0;
            while i < shares.len()
                invariant
                    i <= shares.len(),
                    json_array(text@) == Some(shares.deep_view()),
                    forall|j: int| 0 <= j < i ==> is_mix_share(#[trigger] shares.deep_view()[j]),
                decreases shares.len() - i,
            {
                assert(shares.deep_view()[i as int] == shares@[i as int]@);
                if !holds_mix_share(shares[i].as_str()) {
                    assert(!is_mix_share(shares.deep_view()[i as int]));
                    assert(json_array(text@)->0 == shares.deep_view());
                    return false;
                }
                i += 1;
            }
            true
        },
        None => false,
    }
}

/// Reads the forecast out of the intensity object that `text` holds.
pub fn read_forecast(text: &str) -> (read: Option<i64>)
    ensures
        read == forecast_of(text@),
{
    match read_object(text) {
        Some(members) => {
            let index = read_string_member(&members, "index");
            if index.is_some() {
                read_integer_member(&members, "forecast")
            } else {
                None
            }
        },
        None => None,
    }
}

/// Reads one entry of the reply.
pub fn read_entry(text: &str) -> (read: Option<RawEntry>)
    ensures
        match read {
            Some(entry) => entry_of(text@) == Some(entry@),
            None => entry_of(text@) is None,
        },
{
    let members = match read_object(text) {
        Some(members) => members,
        None => { return None; },
    };
    let from = match read_string_member(&members, "from") {
        Some(from) => from,
        None => { return None; },
    };
    let to = match read_string_member(&members, "to") {
        Some(to) => to,
        None => { return None; },
    };
    let forecast = match find_member(&members, "intensity") {
        Some(intensity) => match read_forecast(intensity.as_str()) {
            Some(forecast) => forecast,
            None => { return None; },
        },
        None => { return None; },
    };
    let mix = match find_member(&members, "generationmix") {
        Some(mix) => holds_mix(mix.as_str()),
        None => false,
    };
    if mix {
        Some(RawEntry { from, to, forecast })
    } else {
        None
    }
}

/// Reads the items of the array of entries, keeping their order. One item
/// that holds no entry fails the whole reading.
pub fn read_items(items: &Vec<String>) -> (read: Option<Vec<RawEntry>>)
    ensures
        match read {
            Some(entries) => entries_of_items(items.deep_view()) == Some(entries.deep_view()),
            None => entries_of_items(items.deep_view()) is None,
        },
{
    let mut entries: Vec<RawEntry> = Vec::new();
    let mut i: usize = 0;
    while i < items.len()
        invariant
            i <= items.len(),
            entries.len() == i,
            forall|j: int|
                0 <= j < i ==> entry_of(#[trigger] items.deep_view()[j]) == Some(entries@[j]@),
        decreases items.len() - i,
    {
        assert(items.deep_view()[i as int] == items@[i as int]@);
        match read_entry(items[i].as_str()) {
            Some(entry) => {
                entries.push(entry);
            },
            None => {
                assert(entry_of(items.deep_view()[i as int]) is None);
                return None;
            },
        }
        i += 1;
    }
    assert(entries.deep_view() =~= Seq::new(
        items.deep_view().len(),
        |i: int| entry_of(items.deep_view()[i])->0,
    ));
    Some(entries)
}

/// Reads the entries out of the region object that `text` holds.
pub fn read_region(text: &str) -> (read: Option<Vec<RawEntry>>)
    ensures
        match read {
            Some(entries) => entries_of_region(text@) == Some(entries.deep_view()),
            None => entries_of_region(text@) is None,
        },
{
    let members = match read_object(text) {
        Some(members) => members,
        None => { return None; },
    };
    let region = read_integer_member(&members, "regionid");
    let operator = read_string_member(&members, "dnoregion");
    let short = read_string_member(&members, "shortname");
    let postcode = read_string_member(&members, "postcode");
    if region.is_some() && operator.is_some() && short.is_some() && postcode.is_some() {
        match find_member(&members, "data") {
            Some(list) => match read_array(list.as_str()) {
                Some(items) => read_items(&items),
                None => None,
            },
            None => None,
        }
    } else {
        None
    }
}

/// Reads the entries out of the reply `body`.
pub fn read_entries(body: &str) -> (read: Option<Vec<RawEntry>>)
    ensures
        match read {
            Some(entries) => entries_of(body@) == Some(entries.deep_view()),
            None => entries_of(body@) is None,
        },
{
    match read_object(body) {
        Some(members) => match find_member(&members, "data") {
            Some(region) => read_region(region.as_str()),
            None => None,
        },
        None => None,
    }
}

/// The entries of an array stand in the order of its items: there is one
/// entry for each item, and the entry at each place is the one that the item
/// at that place holds.
pub proof fn entries_keep_order(items: Seq<Seq<char>>, i: int)
    requires
        entries_of_items(items) is Some,
        0 <= i < items.len(),
    ensures
        entries_of_items(items)->0.len() == items.len(),
        entry_of(items[i]) == Some(entries_of_items(items)->0[i]),
{
}

/// One item that holds no entry leaves the whole array without entries.
pub proof fn bad_item_fails_array(items: Seq<Seq<char>>, i: int)
    requires
        0 <= i < items.len(),
        entry_of(items[i]) is None,
    ensures
        entries_of_items(items) is None,
{
}

} // verus!
