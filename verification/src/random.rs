//! The kinds of value, how a token selects one, and how a value of each kind is made.
//!
//! For every kind there is a function that puts a value together from what was
//! drawn, with an exact contract, and a function that draws and then calls the
//! first. `random_value` chooses between the drawing functions.

use vstd::prelude::*;
use crate::calendar::{
    day_text, format_day, format_instant, format_time, instant_text, is_date_shape,
    is_datetime_shape, time_text, today, DATETIME_PATTERN, DATE_PATTERN, FIRST_DAY, FIRST_INSTANT,
    LAST_DAY, LAST_INSTANT, LAST_PLAIN_DAY, TIME_PATTERN,
};
use crate::chance::{pick_alphanumeric, pick_between, pick_uniform};
use crate::ident::{is_uuid_text, new_uuid_text};
use crate::text::{
    all_digits, ascii_lowercase, bytes_text, digits_text, is_alphanumeric, is_ascii_text,
    is_digit, lowercase_of, push_bytes, push_digits, singles, starts_with, three_digit_text,
    three_digits,
};

verus! {

/// What a generated value is.
#[derive(Debug, Clone, Copy, PartialEq, Eq, Structural)]
pub enum RandomKind {
    Name,
    Email,
    Phone,
    UUID,
    Date,
    Time,
    DateTime,
    Number,
}

impl RandomKind {
    /// The canonical name of the kind, in lower case.
    pub open spec fn canonical_name(self) -> Seq<char> {
        match self {
            RandomKind::Name => "name"@,
            RandomKind::Email => "email"@,
            RandomKind::Phone => "phone"@,
            RandomKind::UUID => "uuid"@,
            RandomKind::Date => "date"@,
            RandomKind::Time => "time"@,
            RandomKind::DateTime => "datetime"@,
            RandomKind::Number => "number"@,
        }
    }

    /// The kind that `token` selects: the first, in the order of the
    /// declaration, whose canonical name begins with `token`, and `Name` where
    /// no canonical name does. The empty token selects `Name`, since every
    /// name begins with it.
    pub open spec fn resolve(token: Seq<char>) -> RandomKind {
        if token.is_prefix_of(RandomKind::Name.canonical_name()) {
            RandomKind::Name
        } else if token.is_prefix_of(RandomKind::Email.canonical_name()) {
            RandomKind::Email
        } else if token.is_prefix_of(RandomKind::Phone.canonical_name()) {
            RandomKind::Phone
        } else if token.is_prefix_of(RandomKind::UUID.canonical_name()) {
            RandomKind::UUID
        } else if token.is_prefix_of(RandomKind::Date.canonical_name()) {
            RandomKind::Date
        } else if token.is_prefix_of(RandomKind::Time.canonical_name()) {
            RandomKind::Time
        } else if token.is_prefix_of(RandomKind::DateTime.canonical_name()) {
            RandomKind::DateTime
        } else if token.is_prefix_of(RandomKind::Number.canonical_name()) {
            RandomKind::Number
        } else {
            RandomKind::Name
        }
    }

    /// The canonical name as a constant text.
    fn canonical(self) -> (name: &'static str)
        ensures
            name@ == self.canonical_name(),
    {
        match self {
            RandomKind::Name => "name",
            RandomKind::Email => "email",
            RandomKind::Phone => "phone",
            RandomKind::UUID => "uuid",
            RandomKind::Date => "date",
            RandomKind::Time => "time",
            RandomKind::DateTime => "datetime",
            RandomKind::Number => "number",
        }
    }

    /// Selects the kind for a token that is taken as it stands, capital
    /// letters and all.
    pub fn from_prefix(token: &str) -> (kind: RandomKind)
        ensures
            kind == RandomKind::resolve(token@),
    {
        if starts_with(RandomKind::Name.canonical(), token) {
            RandomKind::Name
        } else if starts_with(RandomKind::Email.canonical(), token) {
            RandomKind::Email
        } else if starts_with(RandomKind::Phone.canonical(), token) {
            RandomKind::Phone
        } else if starts_with(RandomKind::UUID.canonical(), token) {
            RandomKind::UUID
        } else if starts_with(RandomKind::Date.canonical(), token) {
            RandomKind::Date
        } else if starts_with(RandomKind::Time.canonical(), token) {
            RandomKind::Time
        } else if starts_with(RandomKind::DateTime.canonical(), token) {
            RandomKind::DateTime
        } else if starts_with(RandomKind::Number.canonical(), token) {
            RandomKind::Number
        } else {
            RandomKind::Name
        }
    }

    /// Selects the kind for `name`, whatever the case of its letters: the token
    /// is put in lower case and then resolved. A token that selects nothing
    /// gives `Name`; a canonical name selects its own kind.
    pub fn get_random_by_name(name: String) -> (kind: RandomKind)
        ensures
            kind == RandomKind::resolve(lowercase_of(name@)),
            is_ascii_text(name@) ==> kind == RandomKind::resolve(ascii_lowercase(name@)),
            forall|k: RandomKind| name@ == k.canonical_name() ==> kind == k,
    {
        let lowered = name.as_str().to_lowercase();
        proof {
            assert forall|k: RandomKind| name@ == k.canonical_name() implies RandomKind::resolve(
                lowered@,
            ) == k by {
                lemma_canonical_name_resolves(k);
            }
        }
        RandomKind::from_prefix(lowered.as_str())
    }

    /// The canonical name of the kind.
    pub fn get_name(&self) -> (name: String)
        ensures
            name@ == self.canonical_name(),
    {
        self.canonical().to_owned()
    }
}

/// Every canonical name is made of small ASCII letters, so putting it in lower
/// case changes nothing, and it resolves to its own kind: `datetime` too, since
/// `date` does not begin with it.
pub proof fn lemma_canonical_name_resolves(kind: RandomKind)
    ensures
        is_ascii_text(kind.canonical_name()),
        ascii_lowercase(kind.canonical_name()) == kind.canonical_name(),
        RandomKind::resolve(kind.canonical_name()) == kind,
{
    lemma_canonical_names();
    let name = kind.canonical_name();
    assert forall|other: RandomKind| other.canonical_name()[0] != name[0] implies !name.is_prefix_of(
        other.canonical_name(),
    ) by {
        lemma_first_differs(name, other.canonical_name());
    }
}

/// Which tokens select `Date` and which `DateTime`: a token that `date` begins
/// with selects `Date`, unless it is empty; `DateTime` is selected by exactly
/// the tokens that `datetime` begins with and that are longer than `date`.
pub proof fn lemma_date_and_datetime_tokens(token: Seq<char>)
    ensures
        token.len() > 0 && token.is_prefix_of(RandomKind::Date.canonical_name())
            ==> RandomKind::resolve(token) == RandomKind::Date,
        RandomKind::resolve(token) == RandomKind::DateTime <==> token.len() > 4
            && token.is_prefix_of(RandomKind::DateTime.canonical_name()),
{
    lemma_canonical_names();
    let date = RandomKind::Date.canonical_name();
    let datetime = RandomKind::DateTime.canonical_name();
    if token.len() > 0 && (token.is_prefix_of(date) || token.is_prefix_of(datetime)) {
        assert(token[0] == 'd') by {
            if token.is_prefix_of(date) {
                assert(token[0] == date.subrange(0, token.len() as int)[0]);
            } else {
                assert(token[0] == datetime.subrange(0, token.len() as int)[0]);
            }
        }
        assert forall|other: RandomKind| other.canonical_name()[0] != 'd' implies !token.is_prefix_of(
            other.canonical_name(),
        ) by {
            lemma_first_differs(token, other.canonical_name());
        }
    }
    if token.len() <= 4 && token.is_prefix_of(datetime) {
        assert(token =~= date.subrange(0, token.len() as int)) by {
            assert forall|i: int| 0 <= i < token.len() implies token[i] == date[i] by {
                assert(token[i] == datetime.subrange(0, token.len() as int)[i]);
            }
        }
    }
}

/// What the eight canonical names hold.
proof fn lemma_canonical_names()
    ensures
        RandomKind::Name.canonical_name() == seq!['n', 'a', 'm', 'e'],
        RandomKind::Email.canonical_name() == seq!['e', 'm', 'a', 'i', 'l'],
        RandomKind::Phone.canonical_name() == seq!['p', 'h', 'o', 'n', 'e'],
        RandomKind::UUID.canonical_name() == seq!['u', 'u', 'i', 'd'],
        RandomKind::Date.canonical_name() == seq!['d', 'a', 't', 'e'],
        RandomKind::Time.canonical_name() == seq!['t', 'i', 'm', 'e'],
        RandomKind::DateTime.canonical_name() == seq!['d', 'a', 't', 'e', 't', 'i', 'm', 'e'],
        RandomKind::Number.canonical_name() == seq!['n', 'u', 'm', 'b', 'e', 'r'],
{
    reveal_strlit("name");
    reveal_strlit("email");
    reveal_strlit("phone");
    reveal_strlit("uuid");
    reveal_strlit("date");
    reveal_strlit("time");
    reveal_strlit("datetime");
    reveal_strlit("number");
    assert(RandomKind::Name.canonical_name() =~= seq!['n', 'a', 'm', 'e']);
    assert(RandomKind::Email.canonical_name() =~= seq!['e', 'm', 'a', 'i', 'l']);
    assert(RandomKind::Phone.canonical_name() =~= seq!['p', 'h', 'o', 'n', 'e']);
    assert(RandomKind::UUID.canonical_name() =~= seq!['u', 'u', 'i', 'd']);
    assert(RandomKind::Date.canonical_name() =~= seq!['d', 'a', 't', 'e']);
    assert(RandomKind::Time.canonical_name() =~= seq!['t', 'i', 'm', 'e']);
    assert(RandomKind::DateTime.canonical_name() =~= seq!['d', 'a', 't', 'e', 't', 'i', 'm', 'e']);
    assert(RandomKind::Number.canonical_name() =~= seq!['n', 'u', 'm', 'b', 'e', 'r']);
}

/// A text does not begin with another whose first character is not its own.
proof fn lemma_first_differs(prefix: Seq<char>, text: Seq<char>)
    requires
        prefix.len() > 0,
        text.len() > 0,
        prefix[0] != text[0],
    ensures
        !prefix.is_prefix_of(text),
{
    if prefix.is_prefix_of(text) {
        assert(prefix[0] == text.subrange(0, prefix.len() as int)[0]);
    }
}

/// The table of family names: each character of `NAME_PREFIX` as a text.
#[verifier::opaque]
pub open spec fn name_prefixes() -> Seq<Seq<char>> {
    singles(NAME_PREFIX@)
}

/// The table of given-name characters: each character of `NAME_SUFFIX` as a text.
#[verifier::opaque]
pub open spec fn name_suffixes() -> Seq<Seq<char>> {
    singles(NAME_SUFFIX@)
}

/// The table of telephone prefixes: each number of `PHONE_PREFIX` in three digits.
pub open spec fn phone_prefixes() -> Seq<Seq<char>> {
    Seq::new(PHONE_PREFIX@.len(), |i: int| three_digits(PHONE_PREFIX@[i] as int))
}

/// The table of mail domains: the entries of `EMAIL_SERVER`.
pub open spec fn email_servers() -> Seq<Seq<char>> {
    Seq::new(EMAIL_SERVER@.len(), |i: int| EMAIL_SERVER@[i]@)
}

/// The texts of `chars`, one for each character.
fn single_texts<const N: usize>(chars: &[char; N]) -> (table: Vec<String>)
    ensures
        table.deep_view() == singles(chars@),
        table.len() == N,
{
    let mut table: Vec<String> = Vec::new();
    let mut i: usize = 0;
    while i < N
        invariant
            i <= N,
            table.len() == i,
            forall|j: int| 0 <= j < i ==> #[trigger] table[j]@ == seq![chars@[j]],
        decreases N - i,
    {
        let mut entry = String::new();
        entry.push(chars[i]);
        table.push(entry);
        i += 1;
    }
    table
}

/// Builds the table of telephone prefixes.
pub fn init_phone_prefix() -> (table: Vec<String>)
    ensures
        table.deep_view() == phone_prefixes(),
        table.len() == PHONE_PREFIX_COUNT,
{
    let mut table: Vec<String> = Vec::new();
    let mut i: usize = 0;
    while i < PHONE_PREFIX_COUNT
        invariant
            i <= PHONE_PREFIX_COUNT,
            table.len() == i,
            forall|j: int|
                0 <= j < i ==> #[trigger] table[j]@ == three_digits(PHONE_PREFIX@[j] as int),
        decreases PHONE_PREFIX_COUNT - i,
    {
        table.push(three_digit_text(PHONE_PREFIX[i]));
        i += 1;
    }
    table
}

/// Builds the table of mail domains.
pub fn init_email_server() -> (table: Vec<String>)
    ensures
        table.deep_view() == email_servers(),
        table.len() == EMAIL_SERVER_COUNT,
{
    let mut table: Vec<String> = Vec::new();
    let mut i: usize = 0;
    while i < EMAIL_SERVER_COUNT
        invariant
            i <= EMAIL_SERVER_COUNT,
            table.len() == i,
            forall|j: int| 0 <= j < i ==> #[trigger] table[j]@ == EMAIL_SERVER@[j]@,
        decreases EMAIL_SERVER_COUNT - i,
    {
        table.push(EMAIL_SERVER[i].to_owned());
        i += 1;
    }
    table
}

/// Builds the table of family names.
pub fn init_name_prefix() -> (table: Vec<String>)
    ensures
        table.deep_view() == name_prefixes(),
        table.len() == NAME_PREFIX_COUNT,
{
    reveal(name_prefixes);
    single_texts(&NAME_PREFIX)
}

/// Builds the table of given-name characters.
pub fn init_name_suffix() -> (table: Vec<String>)
    ensures
        table.deep_view() == name_suffixes(),
        table.len() == NAME_SUFFIX_COUNT,
{
    reveal(name_suffixes);
    single_texts(&NAME_SUFFIX)
}

/// How many entries the four tables have: none of them is empty. A name entry
/// is one character, a telephone prefix three digits.
pub proof fn lemma_table_sizes()
    ensures
        name_prefixes().len() == NAME_PREFIX_COUNT,
        name_suffixes().len() == NAME_SUFFIX_COUNT,
        phone_prefixes().len() == PHONE_PREFIX_COUNT,
        email_servers().len() == EMAIL_SERVER_COUNT,
        forall|i: int| 0 <= i < NAME_PREFIX_COUNT ==> (#[trigger] name_prefixes()[i]).len() == 1,
        forall|i: int| 0 <= i < NAME_SUFFIX_COUNT ==> (#[trigger] name_suffixes()[i]).len() == 1,
        forall|i: int, j: int|
            0 <= i < PHONE_PREFIX_COUNT && 0 <= j < 3 ==> (#[trigger] phone_prefixes()[i]).len()
                == 3 && is_digit(#[trigger] phone_prefixes()[i][j]),
{
    reveal(name_prefixes);
    reveal(name_suffixes);
}

/// The name made of the family name at `prefix` and the two given-name
/// characters at `first` and `second`.
pub open spec fn name_text(prefix: int, first: int, second: int) -> Seq<char> {
    name_prefixes()[prefix] + name_suffixes()[first] + name_suffixes()[second]
}

/// The mail address with the local part `local`, one character for each byte,
/// at the domain at `server`.
pub open spec fn email_text(local: Seq<u8>, server: int) -> Seq<char> {
    bytes_text(local) + seq!['@'] + email_servers()[server]
}

/// The telephone number that begins with the prefix at `prefix` and goes on with `digits`.
pub open spec fn phone_text(prefix: int, digits: Seq<u8>) -> Seq<char> {
    phone_prefixes()[prefix] + digits_text(digits)
}

/// How many digits a number has for a length hint: the hint itself, and nine
/// where the hint is negative.
pub open spec fn number_length(length: int) -> int {
    if length < 0 {
        9
    } else {
        length
    }
}

/// How many days there are to draw a date from when the clock reads `today`:
/// those from the first day up to, not including, `today`; the first day alone
/// where the clock reads no later day.
pub open spec fn date_span(today: int) -> int {
    if today > FIRST_DAY {
        today - FIRST_DAY
    } else {
        1
    }
}

/// Whether `text` is a name: one family name followed by two given-name characters.
pub open spec fn is_name(text: Seq<char>) -> bool {
    exists|prefix: int, first: int, second: int|
        0 <= prefix < NAME_PREFIX_COUNT && 0 <= first < NAME_SUFFIX_COUNT && 0 <= second
            < NAME_SUFFIX_COUNT && text == #[trigger] name_text(prefix, first, second)
}

/// Whether `text` is a mail address: ten letters or digits, `@`, and one of the domains.
pub open spec fn is_email(text: Seq<char>) -> bool {
    &&& text.len() >= 11
    &&& forall|i: int| 0 <= i < 10 ==> is_alphanumeric(#[trigger] text[i])
    &&& text[10] == '@'
    &&& exists|server: int|
        0 <= server < EMAIL_SERVER_COUNT && text.subrange(11, text.len() as int)
            == #[trigger] email_servers()[server]
}

/// Whether `text` is a telephone number: eleven characters, of which the first
/// three are one of the prefixes and the other eight are digits.
pub open spec fn is_phone(text: Seq<char>) -> bool {
    &&& text.len() == 11
    &&& exists|prefix: int|
        0 <= prefix < PHONE_PREFIX_COUNT && text.subrange(0, 3)
            == #[trigger] phone_prefixes()[prefix]
    &&& forall|i: int| 3 <= i < 11 ==> is_digit(#[trigger] text[i])
}

/// Whether `text` is a date from the first day on, written as chrono writes it.
pub open spec fn is_date(text: Seq<char>) -> bool {
    &&& text.len() >= 10
    &&& exists|day: int| FIRST_DAY <= day <= LAST_DAY && text == #[trigger] day_text(day)
}

/// Whether `text` is a time of day, written as `HH:MM:SS`.
pub open spec fn is_time(text: Seq<char>) -> bool {
    exists|hour: int, minute: int, second: int|
        0 <= hour < 24 && 0 <= minute < 60 && 0 <= second < 60 && text == #[trigger] time_text(
            hour,
            minute,
            second,
        )
}

/// Whether `text` is an instant between the two bounds, the later one left
/// out, written as `YYYY-MM-DD HH:MM:SS`.
pub open spec fn is_datetime(text: Seq<char>) -> bool {
    &&& is_datetime_shape(text)
    &&& exists|seconds: int|
        FIRST_INSTANT <= seconds < LAST_INSTANT && text == #[trigger] instant_text(seconds)
}

/// Whether `text` is a number for the length hint `length`: digits only, as
/// many as `number_length` says.
pub open spec fn is_number(text: Seq<char>, length: int) -> bool {
    &&& text.len() == number_length(length)
    &&& forall|i: int| 0 <= i < text.len() ==> is_digit(#[trigger] text[i])
}

/// Whether `text` is a value of `kind`; the length hint counts for numbers only.
pub open spec fn is_value(kind: RandomKind, length: int, text: Seq<char>) -> bool {
    match kind {
        RandomKind::Name => is_name(text),
        RandomKind::Email => is_email(text),
        RandomKind::Phone => is_phone(text),
        RandomKind::UUID => is_uuid_text(text),
        RandomKind::Date => is_date(text),
        RandomKind::Time => is_time(text),
        RandomKind::DateTime => is_datetime(text),
        RandomKind::Number => is_number(text, length),
    }
}

/// The name for three places in the tables.
pub fn name_at(prefix: usize, first: usize, second: usize) -> (text: String)
    requires
        prefix < NAME_PREFIX_COUNT,
        first < NAME_SUFFIX_COUNT,
        second < NAME_SUFFIX_COUNT,
    ensures
        text@ == name_text(prefix as int, first as int, second as int),
{
    let prefixes = init_name_prefix();
    let suffixes = init_name_suffix();
    let mut text = prefixes[prefix].clone();
    text.append(suffixes[first].as_str());
    text.append(suffixes[second].as_str());
    text
}

/// The mail address for a local part, one character for each byte, and a
/// place in the table of domains.
pub fn email_at(local: &Vec<u8>, server: usize) -> (text: String)
    requires
        server < EMAIL_SERVER_COUNT,
    ensures
        text@ == email_text(local@, server as int),
{
    let servers = init_email_server();
    let mut text = String::new();
    push_bytes(&mut text, local);
    text.push('@');
    text.append(servers[server].as_str());
    text
}

/// The telephone number for a place in the table of prefixes and the digits that follow.
pub fn phone_at(prefix: usize, digits: &Vec<u8>) -> (text: String)
    requires
        prefix < PHONE_PREFIX_COUNT,
        all_digits(digits@),
    ensures
        text@ == phone_text(prefix as int, digits@),
{
    let prefixes = init_phone_prefix();
    let mut text = prefixes[prefix].clone();
    push_digits(&mut text, digits);
    text
}

/// The date `offset` days after the first day.
pub fn date_at(offset: i64) -> (text: String)
    requires
        0 <= offset <= LAST_DAY - FIRST_DAY,
    ensures
        text@ == day_text(FIRST_DAY + offset),
        is_date(text@),
        FIRST_DAY + offset <= LAST_PLAIN_DAY ==> is_date_shape(text@),
{
    let text = format_day((FIRST_DAY as i64 + offset) as i32, DATE_PATTERN);
    assert(text@ == day_text(FIRST_DAY + offset));
    text
}

/// The time of day for an hour, a minute and a second.
pub fn time_at(hour: u32, minute: u32, second: u32) -> (text: String)
    requires
        hour < 24,
        minute < 60,
        second < 60,
    ensures
        text@ == time_text(hour as int, minute as int, second as int),
{
    format_time(hour, minute, second, TIME_PATTERN)
}

/// The instant `offset` seconds after the first instant.
pub fn datetime_at(offset: i64) -> (text: String)
    requires
        0 <= offset < LAST_INSTANT - FIRST_INSTANT,
    ensures
        text@ == instant_text(FIRST_INSTANT + offset),
        is_datetime(text@),
{
    let text = format_instant(FIRST_INSTANT + offset, DATETIME_PATTERN);
    assert(text@ == instant_text(FIRST_INSTANT + offset));
    text
}

/// The number whose decimal digits are `digits`, leading zeros kept.
pub fn number_of(digits: &Vec<u8>) -> (text: String)
    requires
        all_digits(digits@),
    ensures
        text@ == digits_text(digits@),
{
    let mut text = String::new();
    push_digits(&mut text, digits);
    text
}

/// How many digits a number has for the length hint `length`.
pub fn number_digits(length: i8) -> (count: usize)
    ensures
        count == number_length(length as int),
{
    if length < 0 {
        9
    } else {
        length as usize
    }
}

/// How many days there are to draw a date from when the clock reads `today`.
pub fn days_to_draw(today: i32) -> (span: i64)
    ensures
        span == date_span(today as int),
{
    if today > FIRST_DAY {
        today as i64 - FIRST_DAY as i64
    } else {
        1
    }
}

/// A date drawn from the days between the first day and `today`, the day
/// number that the clock reads: any day from the first up to, not including,
/// `today`. Where the clock reads the first day or an earlier one, the first
/// day is all there is to draw. So from the first day on, the date lies
/// between the first day and `today`.
pub fn random_date_before(today: i32) -> (text: String)
    requires
        today <= LAST_DAY,
    ensures
        exists|day: int|
            FIRST_DAY <= day < FIRST_DAY + date_span(today as int) && text@ == #[trigger] day_text(
                day,
            ),
        today >= FIRST_DAY ==> exists|day: int|
            FIRST_DAY <= day <= today && text@ == #[trigger] day_text(day),
        is_date(text@),
        today <= LAST_PLAIN_DAY ==> is_date_shape(text@),
{
    let span = days_to_draw(today);
    let offset = pick_between(0, span);
    date_at(offset)
}

/// One random value of `kind`. `length` says how many digits a number has, nine
/// where it is negative; the other kinds pay no heed to it. Only a number of
/// length zero is empty.
pub fn random_value(kind: RandomKind, length: i8) -> (text: String)
    ensures
        is_value(kind, length as int, text@),
        text@.len() == 0 <==> kind == RandomKind::Number && length == 0,
{
    let text = match kind {
        RandomKind::Name => random_name(),
        RandomKind::Email => random_email(),
        RandomKind::Phone => random_phone(),
        RandomKind::UUID => random_uuid(),
        RandomKind::Date => random_date(),
        RandomKind::Time => random_time(),
        RandomKind::DateTime => random_datetime(),
        RandomKind::Number => random_number(length),
    };
    proof {
        lemma_value_length(kind, length as int, text@);
    }
    text
}

/// A place in a table of `len` entries.
fn pick_index(len: usize) -> (index: usize)
    requires
        0 < len <= i64::MAX,
    ensures
        index < len,
{
    pick_between(0, len as i64) as usize
}

fn random_name() -> (text: String)
    ensures
        is_name(text@),
{
    let prefix = pick_index(NAME_PREFIX_COUNT);
    let first = pick_index(NAME_SUFFIX_COUNT);
    let second = pick_index(NAME_SUFFIX_COUNT);
    name_at(prefix, first, second)
}

fn random_email() -> (text: String)
    ensures
        is_email(text@),
{
    let server = pick_index(EMAIL_SERVER_COUNT);
    let mut local: Vec<u8> = Vec::new();
    let mut i: usize = 0;
    while i < 10
        invariant
            i <= 10,
            local.len() == i,
            forall|j: int| 0 <= j < i ==> is_alphanumeric(#[trigger] local[j] as char),
        decreases 10 - i,
    {
        local.push(pick_alphanumeric());
        i += 1;
    }
    let text = email_at(&local, server);
    proof {
        lemma_email_text(local@, server as int);
    }
    text
}

fn random_phone() -> (text: String)
    ensures
        is_phone(text@),
{
    let prefix = pick_index(PHONE_PREFIX_COUNT);
    let mut digits: Vec<u8> = Vec::new();
    let mut i: usize = 0;
    while i < 8
        invariant
            i <= 8,
            digits.len() == i,
            all_digits(digits@),
        decreases 8 - i,
    {
        digits.push(pick_between(0, 10) as u8);
        i += 1;
    }
    let text = phone_at(prefix, &digits);
    proof {
        lemma_phone_text(prefix as int, digits@);
    }
    text
}

fn random_uuid() -> (text: String)
    ensures
        is_uuid_text(text@),
{
    new_uuid_text()
}

fn random_date() -> (text: String)
    ensures
        is_date(text@),
{
    random_date_before(today())
}

fn random_time() -> (text: String)
    ensures
        is_time(text@),
{
    let hour = pick_between(0, 24) as u32;
    let minute = pick_between(0, 60) as u32;
    let second = pick_between(0, 60) as u32;
    time_at(hour, minute, second)
}

fn random_datetime() -> (text: String)
    ensures
        is_datetime(text@),
{
    let offset = pick_between(0, LAST_INSTANT - FIRST_INSTANT);
    datetime_at(offset)
}

fn random_number(length: i8) -> (text: String)
    ensures
        is_number(text@, length as int),
{
    let count = number_digits(length);
    let mut digits: Vec<u8> = Vec::new();
    let mut i: usize = 0;
    while i < count
        invariant
            i <= count,
            digits.len() == i,
            all_digits(digits@),
        decreases count - i,
    {
        digits.push(pick_uniform(0, 10));
        i += 1;
    }
    number_of(&digits)
}

/// A mail address made of ten letters or digits and a domain of the table is
/// what `is_email` asks for.
pub proof fn lemma_email_text(local: Seq<u8>, server: int)
    requires
        local.len() == 10,
        forall|j: int| 0 <= j < 10 ==> is_alphanumeric(#[trigger] local[j] as char),
        0 <= server < EMAIL_SERVER_COUNT,
    ensures
        is_email(email_text(local, server)),
{
    let text = email_text(local, server);
    assert(text.subrange(11, text.len() as int) == email_servers()[server]);
    assert forall|i: int| 0 <= i < 10 implies is_alphanumeric(#[trigger] text[i]) by {
        assert(text[i] == local[i] as char);
    }
}

/// A telephone number made of a prefix of the table and eight digits is what
/// `is_phone` asks for.
pub proof fn lemma_phone_text(prefix: int, digits: Seq<u8>)
    requires
        0 <= prefix < PHONE_PREFIX_COUNT,
        digits.len() == 8,
        all_digits(digits),
    ensures
        is_phone(phone_text(prefix, digits)),
{
    let text = phone_text(prefix, digits);
    assert(text.subrange(0, 3) == phone_prefixes()[prefix]);
    assert forall|i: int| 3 <= i < 11 implies is_digit(#[trigger] text[i]) by {
        assert(text[i] == digits_text(digits)[i - 3]);
    }
}

/// A telephone number is eleven digits.
pub proof fn lemma_phone_digits(text: Seq<char>)
    requires
        is_phone(text),
    ensures
        text.len() == 11,
        forall|i: int| 0 <= i < 11 ==> is_digit(#[trigger] text[i]),
{
    lemma_table_sizes();
    let prefix = choose|prefix: int|
        0 <= prefix < PHONE_PREFIX_COUNT && text.subrange(0, 3)
            == #[trigger] phone_prefixes()[prefix];
    assert forall|i: int| 0 <= i < 3 implies is_digit(#[trigger] text[i]) by {
        assert(text[i] == text.subrange(0, 3)[i]);
        assert(is_digit(phone_prefixes()[prefix][i]));
    }
}

/// How long the values are. A value is empty only where it is a number of
/// length zero; a telephone number has eleven characters; a number has as
/// many as its length hint says, or nine.
pub proof fn lemma_value_length(kind: RandomKind, length: int, text: Seq<char>)
    requires
        is_value(kind, length, text),
    ensures
        text.len() == 0 <==> kind == RandomKind::Number && length == 0,
        kind == RandomKind::Name ==> text.len() == 3,
        kind == RandomKind::Email ==> text.len() >= 11,
        kind == RandomKind::Phone ==> text.len() == 11,
        kind == RandomKind::UUID ==> text.len() == 36,
        kind == RandomKind::Date ==> text.len() >= 10,
        kind == RandomKind::Time ==> text.len() == 8,
        kind == RandomKind::DateTime ==> text.len() == 19,
        kind == RandomKind::Number ==> text.len() == number_length(length),
{
    lemma_table_sizes();
}

/// How many family names there are.
pub const NAME_PREFIX_COUNT: usize = 128;

/// How many given-name characters there are.
pub const NAME_SUFFIX_COUNT: usize = 1002;

/// How many telephone prefixes there are.
pub const PHONE_PREFIX_COUNT: usize = 57;

/// How many mail domains there are.
pub const EMAIL_SERVER_COUNT: usize = 12;

/// The three leading digits of a mobile telephone number, as numbers.
pub const PHONE_PREFIX: [u16; PHONE_PREFIX_COUNT] = [
    130, 131, 132, 133, 134, 135, 136, 137, 138, 139,
    144, 145, 146, 147, 148, 149, 150, 151, 152, 153,
    154, 155, 156, 157, 158, 159, 165, 166, 167, 170,
    171, 172, 173, 174, 175, 176, 177, 178, 179, 180,
    181, 182, 183, 184, 185, 186, 187, 188, 189, 190,
    191, 193, 195, 196, 197, 198, 199,
];

/// The domains of the mail providers.
pub const EMAIL_SERVER: [&'static str; EMAIL_SERVER_COUNT] = [
    "qq.com",
    "163.com",
    "126.com",
    "gmail.com",
    "outlook.com",
    "yahoo.com",
    "sina.com",
    "sohu.com",
    "aliyun.com",
    "hotmail.com",
    "icloud.com",
    "live.com",
];

/// The family names, one character each.
pub const NAME_PREFIX: [char; NAME_PREFIX_COUNT] = [
    '赵', '钱', '孙', '李', '周', '吴', '郑', '王', '冯', '陈', '褚', '卫', '蒋', '沈', '韩', '杨', '朱', '秦', '尤', '许',
    '何', '吕', '施', '张', '孔', '曹', '严', '华', '金', '魏', '陶', '姜', '戚', '谢', '邹', '喻', '柏', '水', '窦', '章',
    '云', '苏', '潘', '葛', '奚', '范', '彭', '郎', '鲁', '韦', '昌', '马', '苗', '凤', '花', '方', '俞', '任', '袁', '柳',
    '酆', '鲍', '史', '唐', '费', '廉', '岑', '薛', '雷', '贺', '倪', '汤', '滕', '殷', '罗', '毕', '郝', '邬', '安', '常',
    '乐', '于', '时', '傅', '皮', '卞', '齐', '康', '伍', '余', '元', '卜', '顾', '孟', '平', '黄', '和', '穆', '萧', '尹',
    '姚', '邵', '堪', '汪', '祁', '毛', '禹', '狄', '米', '贝', '明', '臧', '计', '伏', '成', '戴', '谈', '宋', '茅', '庞',
    '熊', '纪', '舒', '屈', '项', '祝', '董', '梁',
];

/// The characters that given names are made of.
pub const NAME_SUFFIX: [char; NAME_SUFFIX_COUNT] = [
    '的', '一', '是', '了', '我', '不', '人', '在', '他', '有', '这', '个', '上', '们', '来', '到', '时', '大', '地', '为',
    '子', '中', '你', '说', '生', '国', '年', '着', '就', '那', '和', '要', '她', '出', '也', '得', '里', '后', '自', '以',
    '会', '家', '可', '下', '而', '过', '天', '去', '能', '对', '小', '多', '然', '于', '心', '学', '么', '之', '都', '好',
    '看', '起', '发', '当', '没', '成', '只', '如', '事', '把', '还', '用', '第', '样', '道', '想', '作', '种', '开', '美',
    '总', '从', '无', '情', '己', '面', '最', '女', '但', '现', '前', '些', '所', '同', '日', '手', '又', '行', '意', '动',
    '方', '期', '它', '头', '经', '长', '儿', '回', '位', '分', '爱', '老', '因', '很', '给', '名', '法', '间', '斯', '知',
    '世', '什', '两', '次', '使', '身', '者', '被', '高', '已', '亲', '其', '进', '此', '话', '常', '与', '活', '正', '感',
    '见', '明', '问', '力', '理', '尔', '点', '文', '几', '定', '本', '公', '特', '做', '外', '孩', '相', '西', '果', '走',
    '将', '月', '十', '实', '向', '声', '车', '全', '信', '重', '三', '机', '工', '物', '气', '每', '并', '别', '真', '打',
    '太', '新', '比', '才', '便', '夫', '再', '书', '部', '水', '像', '眼', '等', '体', '却', '加', '电', '主', '界', '门',
    '利', '海', '受', '听', '表', '德', '少', '克', '代', '员', '许', '稜', '先', '口', '由', '死', '安', '写', '性', '马',
    '光', '白', '或', '住', '难', '望', '教', '命', '花', '结', '乐', '色', '更', '拉', '东', '神', '记', '处', '让', '母',
    '父', '应', '直', '字', '场', '平', '报', '友', '关', '放', '至', '张', '认', '接', '告', '入', '笑', '内', '英', '军',
    '候', '民', '岁', '往', '何', '度', '山', '觉', '路', '带', '万', '男', '边', '风', '解', '叫', '任', '金', '快', '原',
    '吃', '妈', '变', '通', '师', '立', '象', '数', '四', '失', '满', '战', '远', '格', '士', '音', '轻', '目', '条', '呢',
    '病', '始', '达', '深', '完', '今', '提', '求', '清', '王', '化', '空', '业', '思', '切', '怎', '非', '找', '片', '罗',
    '钱', '紶', '吗', '语', '元', '喜', '曾', '离', '飞', '科', '言', '干', '流', '欢', '约', '各', '即', '指', '合', '反',
    '题', '必', '该', '论', '交', '终', '林', '请', '医', '晚', '制', '球', '决', '窢', '传', '画', '保', '读', '运', '及',
    '则', '房', '早', '院', '量', '苦', '火', '布', '品', '近', '坐', '产', '答', '星', '精', '视', '五', '连', '司', '巴',
    '奇', '管', '类', '未', '朋', '且', '婚', '台', '夜', '青', '北', '队', '久', '乎', '越', '观', '落', '尽', '形', '影',
    '红', '爸', '百', '令', '周', '吧', '识', '步', '希', '亚', '术', '留', '市', '半', '热', '送', '兴', '造', '谈', '容',
    '极', '随', '演', '收', '首', '根', '讲', '整', '式', '取', '照', '办', '强', '石', '古', '华', '諣', '拿', '计', '您',
    '装', '似', '足', '双', '妻', '尼', '转', '诉', '米', '称', '丽', '客', '南', '领', '节', '衣', '站', '黑', '刻', '统',
    '断', '福', '城', '故', '历', '惊', '脸', '选', '包', '紧', '争', '另', '建', '维', '绝', '树', '系', '伤', '示', '愿',
    '持', '千', '史', '谁', '准', '联', '妇', '纪', '基', '买', '志', '静', '阿', '诗', '独', '复', '痛', '消', '社', '算',
    '义', '竟', '确', '酒', '需', '单', '治', '卡', '幸', '兰', '念', '举', '仅', '钟', '怕', '共', '毛', '句', '息', '功',
    '官', '待', '究', '跟', '穿', '室', '易', '游', '程', '号', '居', '考', '突', '皮', '哪', '费', '倒', '价', '图', '具',
    '刚', '脑', '永', '歌', '响', '商', '礼', '细', '专', '黄', '块', '脚', '味', '灵', '改', '据', '般', '破', '引', '食',
    '仍', '存', '众', '注', '笔', '甚', '某', '沉', '血', '备', '习', '校', '默', '务', '土', '微', '娘', '须', '试', '怀',
    '料', '调', '广', '蜖', '苏', '显', '赛', '查', '密', '议', '底', '列', '富', '梦', '错', '座', '参', '八', '除', '跑',
    '亮', '假', '印', '设', '线', '温', '虽', '掉', '京', '初', '养', '香', '停', '际', '致', '阳', '纸', '李', '纳', '验',
    '助', '激', '够', '严', '证', '帝', '饭', '忘', '趣', '支', '春', '集', '丈', '木', '研', '班', '普', '导', '顿', '睡',
    '展', '跳', '获', '艺', '六', '波', '察', '群', '皇', '段', '急', '庭', '创', '区', '奥', '器', '谢', '弟', '店', '否',
    '害', '草', '排', '背', '止', '组', '州', '朝', '封', '睛', '板', '角', '况', '曲', '馆', '育', '忙', '质', '河', '续',
    '哥', '呼', '若', '推', '境', '遇', '雨', '标', '姐', '充', '围', '案', '伦', '护', '冷', '警', '贝', '著', '雪', '索',
    '剧', '啊', '船', '险', '烟', '依', '斗', '值', '帮', '汉', '慢', '佛', '肯', '闻', '唱', '沙', '局', '伯', '族', '低',
    '玩', '资', '屋', '击', '速', '顾', '泪', '洲', '团', '圣', '旁', '堂', '兵', '七', '露', '园', '牛', '哭', '旅', '街',
    '劳', '型', '烈', '姑', '陈', '莫', '鱼', '异', '抱', '宝', '权', '鲁', '简', '态', '级', '票', '怪', '寻', '杀', '律',
    '胜', '份', '汽', '右', '洋', '范', '床', '舞', '秘', '午', '登', '楼', '贵', '吸', '责', '例', '追', '较', '职', '属',
    '渐', '左', '录', '丝', '牙', '党', '继', '托', '赶', '章', '智', '冲', '叶', '胡', '吉', '卖', '坚', '喝', '肉', '遗',
    '救', '修', '松', '临', '藏', '担', '戏', '善', '卫', '药', '悲', '敢', '靠', '伊', '村', '戴', '词', '森', '耳', '差',
    '短', '祖', '云', '规', '窗', '散', '迷', '油', '旧', '适', '乡', '架', '恩', '投', '弹', '铁', '博', '雷', '府', '压',
    '超', '负', '勒', '杂', '醒', '洗', '采', '毫', '嘴', '毕', '九', '冰', '既', '状', '乱', '景', '席', '珍', '童', '顶',
    '派', '素', '脱', '农', '疑', '练', '野', '按', '犯', '拍', '征', '坏', '骨', '余', '承', '置', '臓', '彩', '灯', '巨',
    '琴', '免', '环', '姆', '暗', '换', '技', '翻', '束', '增', '忍', '餐', '洛', '塞', '缺', '忆', '判', '欧', '层', '付',
    '阵', '玛', '批', '岛', '项', '狗', '休', '懂', '武', '革', '良', '恶', '恋', '委', '拥', '娜', '妙', '探', '呀', '营',
    '退', '摇', '弄', '桌', '熟', '诺', '宣', '银', '势', '奖', '宫', '忽', '套', '康', '供', '优', '课', '鸟', '喊', '降',
    '夏', '困', '刘', '罪', '亡', '鞋', '健', '模', '败', '伴', '守', '挥', '鲜', '财', '孤', '枪', '禁', '恐', '伙', '杰',
    '迹', '妹', '藸', '遍', '盖', '副', '坦', '牌', '江', '顺', '秋', '萨', '菜', '划', '授', '归', '浪', '听', '凡', '预',
    '奶', '雄', '升', '碃', '编', '典', '袋', '莱', '含', '盛', '济', '蒙', '棋', '端', '腿', '招', '释', '介', '烧', '误',
    '乾', '坤',
];

} // verus!
