//! The records that present the generated values, and the payload they are sent in.

use vstd::prelude::*;
use crate::ident::{is_uuid_text, new_uuid_text};
use crate::json::{frame_items, frame_record, items_frame, json_string, quote, record_frame};
use crate::random::RandomKind;
use crate::GenerateRandom;

verus! {

/// The address that every record refers to.
pub const AUTHOR_WEBSITE: &'static str = "https://hongdenglv.com";

/// One record of the payload: a generated value and what is shown with it.
pub struct Workflow {
    arg: String,
    quicklookurl: String,
    subtitle: String,
    title: String,
    uid: String,
}

/// What a `Workflow` holds, as plain texts.
pub struct Record {
    pub arg: Seq<char>,
    pub quicklookurl: Seq<char>,
    pub subtitle: Seq<char>,
    pub title: Seq<char>,
    pub uid: Seq<char>,
}

/// The records of one run, in the order in which the values were generated.
pub struct Workflows {
    pub items: Vec<Workflow>,
}

/// The texts that a record offers for copying and for showing in large type.
pub struct Text {
    pub copy: String,
    pub largetype: String,
}

impl Record {
    /// What holds of every record: what is shown is what is handed on, the
    /// address is the fixed one, and below the value stands the canonical name
    /// of a kind.
    pub open spec fn is_consistent(self) -> bool {
        &&& self.title == self.arg
        &&& self.quicklookurl == AUTHOR_WEBSITE@
        &&& exists|kind: RandomKind| self.subtitle == #[trigger] kind.canonical_name()
    }

    /// Whether the record presents `value` as a value of `kind`: the value is
    /// both what is shown and what is handed on, the canonical name of the
    /// kind stands below it, the address is the fixed one, and the identifier
    /// has the form of a random UUID.
    pub open spec fn presents(self, kind: RandomKind, value: Seq<char>) -> bool {
        &&& self.arg == value
        &&& self.title == value
        &&& self.subtitle == kind.canonical_name()
        &&& self.quicklookurl == AUTHOR_WEBSITE@
        &&& is_uuid_text(self.uid)
    }

    /// The JSON object of the record.
    pub open spec fn json(self) -> Seq<char> {
        record_frame(
            json_string(self.arg),
            json_string(self.quicklookurl),
            json_string(self.subtitle),
            json_string(self.title),
            json_string(self.uid),
        )
    }
}

/// The JSON text of the payload that holds `records`.
pub open spec fn payload_text(records: Seq<Record>) -> Seq<char> {
    items_frame(records.map_values(|record: Record| record.json()))
}

impl View for Workflow {
    type V = Record;

    closed spec fn view(&self) -> Record {
        Record {
            arg: self.arg@,
            quicklookurl: self.quicklookurl@,
            subtitle: self.subtitle@,
            title: self.title@,
            uid: self.uid@,
        }
    }
}

impl View for Workflows {
    type V = Seq<Record>;

    open spec fn view(&self) -> Seq<Record> {
        self.items@.map_values(|item: Workflow| item@)
    }
}

impl Workflow {
    /// Every record is consistent, however it was made.
    #[verifier::type_invariant]
    spec fn consistent(self) -> bool {
        self@.is_consistent()
    }

    /// The record that presents `arg` as a value of `kind`, under a fresh identifier.
    pub fn new(arg: String, kind: RandomKind) -> (workflow: Workflow)
        ensures
            workflow@.presents(kind, arg@),
    {
        Workflow::with_uid(arg, kind, new_uuid_text())
    }

    /// The record that presents `arg` as a value of `kind`, under the identifier `uid`.
    pub fn with_uid(arg: String, kind: RandomKind, uid: String) -> (workflow: Workflow)
        ensures
            workflow@ == (Record {
                arg: arg@,
                quicklookurl: AUTHOR_WEBSITE@,
                subtitle: kind.canonical_name(),
                title: arg@,
                uid: uid@,
            }),
    {
        Workflow {
            arg: arg.clone(),
            quicklookurl: AUTHOR_WEBSITE.to_owned(),
            subtitle: kind.get_name(),
            title: arg,
            uid,
        }
    }

    /// The value, as it is handed on when the record is chosen.
    pub fn arg(&self) -> (text: &String)
        ensures
            text@ == self@.arg,
            self@.is_consistent(),
    {
        proof {
            use_type_invariant(self);
        }
        &self.arg
    }

    /// The address that the record refers to.
    pub fn quicklookurl(&self) -> (text: &String)
        ensures
            text@ == self@.quicklookurl,
            self@.is_consistent(),
    {
        proof {
            use_type_invariant(self);
        }
        &self.quicklookurl
    }

    /// The canonical name of the value's kind.
    pub fn subtitle(&self) -> (text: &String)
        ensures
            text@ == self@.subtitle,
            self@.is_consistent(),
    {
        proof {
            use_type_invariant(self);
        }
        &self.subtitle
    }

    /// The value, as it is shown.
    pub fn title(&self) -> (text: &String)
        ensures
            text@ == self@.title,
            self@.is_consistent(),
    {
        proof {
            use_type_invariant(self);
        }
        &self.title
    }

    /// The identifier of the record.
    pub fn uid(&self) -> (text: &String)
        ensures
            text@ == self@.uid,
            self@.is_consistent(),
    {
        proof {
            use_type_invariant(self);
        }
        &self.uid
    }

    /// The JSON object of the record: its five members in their fixed order.
    pub fn to_json(&self) -> (text: String)
        ensures
            text@ == self@.json(),
            self@.is_consistent(),
    {
        proof {
            use_type_invariant(self);
        }
        let arg = quote(self.arg.as_str());
        let quicklookurl = quote(self.quicklookurl.as_str());
        let subtitle = quote(self.subtitle.as_str());
        let title = quote(self.title.as_str());
        let uid = quote(self.uid.as_str());
        frame_record(
            arg.as_str(),
            quicklookurl.as_str(),
            subtitle.as_str(),
            title.as_str(),
            uid.as_str(),
        )
    }
}

impl Workflows {
    /// One record for each generated value, in the same order, each under a
    /// fresh identifier.
    pub fn new(generate_value: Vec<GenerateRandom>) -> (workflows: Workflows)
        ensures
            workflows@.len() == generate_value.len(),
            forall|i: int|
                0 <= i < generate_value.len() ==> (#[trigger] workflows@[i]).presents(
                    generate_value[i].kind,
                    generate_value[i].value@,
                ),
    {
        let mut items: Vec<Workflow> = Vec::new();
        let mut i: usize = 0;
        while i < generate_value.len()
            invariant
                i <= generate_value.len(),
                items.len() == i,
                forall|j: int|
                    0 <= j < i ==> (#[trigger] items[j])@.presents(
                        generate_value[j].kind,
                        generate_value[j].value@,
                    ),
            decreases generate_value.len() - i,
        {
            let workflow = Workflow::new(generate_value[i].value.clone(), generate_value[i].kind);
            items.push(workflow);
            i += 1;
        }
        Workflows { items }
    }

    /// The JSON text of the payload: an object whose member `items` lists the
    /// records in their order, on one line.
    pub fn to_json(&self) -> (text: String)
        ensures
            text@ == payload_text(self@),
    {
        let mut records: Vec<String> = Vec::new();
        let mut i: usize = 0;
        while i < self.items.len()
            invariant
                i <= self.items.len(),
                records.len() == i,
                forall|j: int| 0 <= j < i ==> (#[trigger] records[j])@ == self.items[j]@.json(),
            decreases self.items.len() - i,
        {
            records.push(self.items[i].to_json());
            i += 1;
        }
        assert(records.deep_view() == self@.map_values(|record: Record| record.json()));
        frame_items(&records)
    }
}

} // verus!
