use amq_protocol::auth::Credentials;
use amq_protocol::protocol::{AMQPErrorKind, AMQPHardError, AMQPSoftError};
use amq_protocol::types::{AMQPValue, FieldTable};
use vstd::prelude::*;

verus! {

/// The properties of a message. This library carries them from the
/// content header to the delivery and never looks inside.
#[verifier::external_type_specification]
#[verifier::external_body]
pub struct ExBasicProperties(amq_protocol::protocol::basic::AMQPProperties);

/// A table of named values, as method arguments and client properties hold
/// them.
#[verifier::external_type_specification]
#[verifier::external_body]
pub struct ExFieldTable(amq_protocol::types::FieldTable);

/// Class id of the Connection methods.
pub const CONNECTION_CLASS: u16 = 10;

/// Class id of the Basic methods, the only ones that carry content.
pub const BASIC_CLASS: u16 = 60;

/// Method ids of the Connection methods that a client receives.
pub const CONNECTION_START_METHOD: u16 = 10;

pub const CONNECTION_SECURE_METHOD: u16 = 20;

pub const CONNECTION_TUNE_METHOD: u16 = 30;

pub const CONNECTION_OPEN_OK_METHOD: u16 = 41;

pub const CONNECTION_CLOSE_METHOD: u16 = 50;

pub const CONNECTION_CLOSE_OK_METHOD: u16 = 51;

pub const CONNECTION_BLOCKED_METHOD: u16 = 60;

pub const CONNECTION_UNBLOCKED_METHOD: u16 = 61;

/// Method id of Basic.Ack.
pub const BASIC_ACK_METHOD: u16 = 80;

/// Method id of Basic.Nack.
pub const BASIC_NACK_METHOD: u16 = 120;

/// The hard errors that this client raises itself.
#[derive(Clone, Copy, Debug, PartialEq, Eq, Structural)]
pub enum HardError {
    FrameError,
    CommandInvalid,
    UnexpectedFrame,
}

/// The reply code that AMQP 0-9-1 assigns to a hard error.
pub open spec fn hard_error_code(error: HardError) -> u16 {
    match error {
        HardError::FrameError => 501,
        HardError::CommandInvalid => 503,
        HardError::UnexpectedFrame => 505,
    }
}

/// The reply code of PRECONDITION-FAILED.
pub open spec fn precondition_failed_code() -> u16 {
    406
}

/// Whether AMQP 0-9-1 defines `code` as the reply code of an error, soft
/// or hard.
pub open spec fn is_error_code(code: u16) -> bool {
    code == 311 || code == 312 || code == 313 || code == 403 || code == 404 || code == 405
        || code == 406 || code == 320 || code == 402 || code == 501 || code == 502 || code == 503
        || code == 504 || code == 505 || code == 506 || code == 530 || code == 540 || code == 541
}

/// Calls `AMQPHardError::get_id` of amq_protocol. Trusted: the id it gives
/// for FRAME-ERROR, COMMAND-INVALID and UNEXPECTED-FRAME is the one in
/// `hard_error_code`.
#[verifier::external_body]
pub(crate) fn hard_error_id(error: HardError) -> (r: u16)
    ensures
        r == hard_error_code(error),
{
    let kind = match error {
        HardError::FrameError => AMQPHardError::FRAMEERROR,
        HardError::CommandInvalid => AMQPHardError::COMMANDINVALID,
        HardError::UnexpectedFrame => AMQPHardError::UNEXPECTEDFRAME,
    };
    kind.get_id()
}

/// Calls `AMQPSoftError::get_id` of amq_protocol on PRECONDITION-FAILED.
/// Trusted: the id is 406.
#[verifier::external_body]
pub(crate) fn precondition_failed_id() -> (r: u16)
    ensures
        r == precondition_failed_code(),
{
    AMQPSoftError::PRECONDITIONFAILED.get_id()
}

/// Calls `AMQPErrorKind::from_id` of amq_protocol and tells whether it
/// found an error for `code`. Trusted: it finds one exactly for the codes
/// listed in `is_error_code`.
#[verifier::external_body]
pub(crate) fn known_error_code(code: u16) -> (r: bool)
    ensures
        r == is_error_code(code),
{
    AMQPErrorKind::from_id(code).is_some()
}

/// The SASL mechanisms that the client can use.
#[derive(Clone, Copy, Debug, PartialEq, Eq, Structural)]
pub enum SASLMechanism {
    AMQPlain,
    External,
    Plain,
    RabbitCrDemo,
}

/// A value that this library puts into a field table.
#[derive(Debug, PartialEq)]
pub enum PropertyValue {
    LongString(String),
    Boolean(bool),
    FieldTable(FieldTable),
}

/// What an entry of a field table holds, as far as this library tells
/// values apart.
pub enum TableValue {
    LongString(Seq<char>),
    Boolean(bool),
    FieldTable(FieldTable),
    Other,
}

impl PropertyValue {
    /// The value as an entry of a field table.
    pub open spec fn shown(self) -> TableValue {
        match self {
            PropertyValue::LongString(s) => TableValue::LongString(s@),
            PropertyValue::Boolean(b) => TableValue::Boolean(b),
            PropertyValue::FieldTable(t) => TableValue::FieldTable(t),
        }
    }
}

/// The entries of a field table, by key.
pub uninterp spec fn table_entries(table: FieldTable) -> Map<Seq<char>, TableValue>;

/// What `Credentials::sasl_auth_string` of amq_protocol gives for these
/// credentials and this mechanism.
pub uninterp spec fn sasl_auth_string(
    username: Seq<char>,
    password: Seq<char>,
    mechanism: SASLMechanism,
) -> Seq<char>;

/// Calls `FieldTable::default` of amq_protocol. Trusted: the table has no
/// entry.
#[verifier::external_body]
pub(crate) fn table_new() -> (table: FieldTable)
    ensures
        forall|key: Seq<char>| !table_entries(table).contains_key(key),
{
    FieldTable::default()
}

/// Calls `FieldTable::contains_key` of amq_protocol. Trusted: it tells
/// whether the table has an entry under `key`.
#[verifier::external_body]
pub(crate) fn table_contains_key(table: &FieldTable, key: &str) -> (r: bool)
    ensures
        r == table_entries(*table).contains_key(key@),
{
    table.contains_key(key)
}

/// Calls `FieldTable::insert` of amq_protocol. Trusted: afterwards the
/// table holds `value` under `key`, in place of what it held there, and
/// its other entries as before.
#[verifier::external_body]
pub(crate) fn table_insert(table: &mut FieldTable, key: &str, value: PropertyValue)
    ensures
        table_entries(*final(table)) == table_entries(*old(table)).insert(key@, value.shown()),
{
    let value = match value {
        PropertyValue::LongString(s) => AMQPValue::LongString(s.into()),
        PropertyValue::Boolean(b) => AMQPValue::Boolean(b),
        PropertyValue::FieldTable(t) => AMQPValue::FieldTable(t),
    };
    table.insert(key.into(), value);
}

/// Calls `Credentials::sasl_auth_string` of amq_protocol on credentials
/// made of `username` and `password`. Trusted: the result depends on
/// these three values alone.
#[verifier::external_body]
pub(crate) fn sasl_response(username: &String, password: &String, mechanism: SASLMechanism) -> (r:
    String)
    ensures
        r@ == sasl_auth_string(username@, password@, mechanism),
{
    let mechanism = match mechanism {
        SASLMechanism::AMQPlain => amq_protocol::auth::SASLMechanism::AMQPlain,
        SASLMechanism::External => amq_protocol::auth::SASLMechanism::External,
        SASLMechanism::Plain => amq_protocol::auth::SASLMechanism::Plain,
        SASLMechanism::RabbitCrDemo => amq_protocol::auth::SASLMechanism::RabbitCrDemo,
    };
    Credentials::new(username.clone(), password.clone()).sasl_auth_string(mechanism)
}

/// Calls `Credentials::rabbit_cr_demo_answer` of amq_protocol on
/// credentials with this password. Trusted: the answer is the text
/// "My password is " followed by the password.
#[verifier::external_body]
pub(crate) fn rabbit_cr_demo_answer(password: &String) -> (r: String)
    ensures
        r@ == "My password is "@ + password@,
{
    Credentials::new(String::new(), password.clone()).rabbit_cr_demo_answer()
}

} // verus!
