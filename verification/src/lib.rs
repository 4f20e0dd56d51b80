//! Random values of eight kinds, and the list of records that presents them.

pub mod calendar;
mod chance;
pub mod ident;
pub mod json;
pub mod random;
pub mod text;
pub mod workflow;

use vstd::prelude::*;
use crate::random::{is_value, random_value, RandomKind};
use crate::text::{ascii_lowercase, is_ascii_text, lowercase_of};
use crate::workflow::{Record, Workflows};

verus! {

/// The length hint of a run that names none: negative, so that a number has nine digits.
pub const DEFAULT_LENGTH: i8 = -1;

/// How many values a run generates that names no count.
pub const DEFAULT_NUMBER: u8 = 9;

/// What a run is asked for.
pub struct Args {
    /// The token that selects the kind of value.
    pub kind: String,
    /// How many digits a number has; a negative length leaves it at nine.
    pub length: i8,
    /// How many values are generated.
    pub number: u8,
}

impl Args {
    /// The request for `number` values of the kind that `kind` selects.
    pub fn new(kind: String, length: i8, number: u8) -> (args: Args)
        ensures
            args.kind == kind,
            args.length == length,
            args.number == number,
    {
        Args { kind, length, number }
    }
}

/// One generated value and its kind.
pub struct GenerateRandom {
    pub kind: RandomKind,
    pub value: String,
}

impl GenerateRandom {
    /// The pair of a kind and a value.
    pub fn new(kind: RandomKind, value: String) -> (generated: GenerateRandom)
        ensures
            generated.kind == kind,
            generated.value == value,
    {
        GenerateRandom { kind, value }
    }
}

/// `number` random values of `kind`, in the order in which they were generated.
pub fn generate_values(kind: RandomKind, length: i8, number: u8) -> (values: Vec<GenerateRandom>)
    ensures
        values.len() == number,
        forall|i: int|
            0 <= i < number ==> (#[trigger] values[i]).kind == kind && is_value(
                kind,
                length as int,
                values[i].value@,
            ),
{
    let mut values: Vec<GenerateRandom> = Vec::new();
    let mut i: u8 = 0;
    while i < number
        invariant
            i <= number,
            values.len() == i,
            forall|j: int|
                0 <= j < i ==> (#[trigger] values[j]).kind == kind && is_value(
                    kind,
                    length as int,
                    values[j].value@,
                ),
        decreases number - i,
    {
        values.push(GenerateRandom::new(kind, random_value(kind, length)));
        i += 1;
    }
    values
}

/// Whether `records` is a batch of `number` records that each present a value
/// of the one kind `kind`, generated under the length hint `length`.
pub open spec fn is_batch(records: Seq<Record>, kind: RandomKind, length: int, number: int) -> bool {
    &&& records.len() == number
    &&& forall|i: int|
        0 <= i < number ==> {
            let record = #[trigger] records[i];
            record.presents(kind, record.arg) && is_value(kind, length, record.arg)
        }
}

/// The records of one run: as many as `args.number` says, each presenting a
/// random value of the one kind that `args.kind` selects once it is put in
/// lower case.
pub fn generate(args: &Args) -> (workflows: Workflows)
    ensures
        is_batch(
            workflows@,
            RandomKind::resolve(lowercase_of(args.kind@)),
            args.length as int,
            args.number as int,
        ),
        is_ascii_text(args.kind@) ==> is_batch(
            workflows@,
            RandomKind::resolve(ascii_lowercase(args.kind@)),
            args.length as int,
            args.number as int,
        ),
{
    let kind = RandomKind::get_random_by_name(args.kind.clone());
    let values = generate_values(kind, args.length, args.number);
    Workflows::new(values)
}

} // verus!
