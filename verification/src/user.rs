//! The records: made-up users, each written as one JSON object.

use fake::faker::internet::en::Password;
use fake::faker::internet::en::SafeEmail;
use fake::faker::internet::en::Username;
use fake::faker::name::en::Name;
use fake::faker::phone_number::en::PhoneNumber;
use fake::Fake;
use vstd::prelude::*;
use vstd::string::StrSliceExecFns;
use vstd::string::StringExecFns;
use vstd::utf8::encode_scalar;
use vstd::utf8::encode_utf8;

verus! {

#[verifier::external_type_specification]
#[verifier::external_body]
pub struct ExJsonError(serde_json::Error);

/// Why a record could not be made.
#[derive(Debug, Clone, Copy, PartialEq, Eq)]
pub enum GenerationError {
    /// The JSON writer failed on a field. It does not fail on a string, so
    /// this is what `write_outcome` makes of a failure handed to it, and no
    /// more.
    Serialize,
}

/// The fewest characters that a made-up password has.
pub const PASSWORD_MIN: usize = 8;

/// One more than the most characters that a made-up password has.
pub const PASSWORD_END: usize = 16;

/// A user, as one record describes it.
#[derive(Debug)]
pub struct User {
    pub firstname: String,
    pub lastname: String,
    pub email: String,
    pub phone_number: String,
    pub username: String,
    pub password: String,
}

/// The JSON string literal for `text`, its quotes included.
pub uninterp spec fn json_string_text(text: Seq<char>) -> Seq<char>;

/// `fake::faker::name::en::Name` through `Fake::fake`: a made-up name.
/// Nothing is claimed of it: it is drawn at random.
#[verifier::external_body]
fn fake_name() -> (name: String) {
    Name().fake()
}

/// `fake::faker::internet::en::SafeEmail` through `Fake::fake`: a made-up
/// address. Nothing is claimed of it: it is drawn at random.
#[verifier::external_body]
fn fake_safe_email() -> (email: String) {
    SafeEmail().fake()
}

/// `fake::faker::phone_number::en::PhoneNumber` through `Fake::fake`: a
/// made-up number. Nothing is claimed of it: it is drawn at random.
#[verifier::external_body]
fn fake_phone_number() -> (phone_number: String) {
    PhoneNumber().fake()
}

/// `fake::faker::internet::en::Username` through `Fake::fake`: a made-up
/// user name. Nothing is claimed of it: it is drawn at random.
#[verifier::external_body]
fn fake_username() -> (username: String) {
    Username().fake()
}

/// `fake::faker::internet::en::Password` through `Fake::fake`: a made-up
/// password. Trusted: the number of its characters is drawn from the range
/// from `min` up to, and without, `end`. Nothing else is claimed of it.
#[verifier::external_body]
fn fake_password(min: usize, end: usize) -> (password: String)
    requires
        min < end,
    ensures
        min <= password@.len() < end,
{
    Password(min..end).fake()
}

/// `serde_json::to_string` of a string slice: the JSON string literal for
/// `text`. Trusted: the call succeeds, and the literal depends on `text`
/// alone. A string slice is serialized by being written into a `Vec`, and
/// the only errors of that path are those of the writer.
#[verifier::external_body]
fn json_string(text: &str) -> (out: Result<String, serde_json::Error>)
    ensures
        out is Ok,
        out matches Ok(json) ==> json@ == json_string_text(text@),
{
    serde_json::to_string(text)
}

/// What a call that writes a string literal amounts to: the literal where
/// it succeeded, `GenerationError::Serialize` where it did not.
pub open spec fn written(outcome: Result<String, serde_json::Error>) -> Result<
    Seq<char>,
    GenerationError,
> {
    match outcome {
        Ok(json) => Ok(json@),
        Err(_) => Err(GenerationError::Serialize),
    }
}

/// The view of an outcome that holds text: the text by its characters.
pub open spec fn text_view(out: Result<String, GenerationError>) -> Result<
    Seq<char>,
    GenerationError,
> {
    match out {
        Ok(json) => Ok(json@),
        Err(e) => Err(e),
    }
}

/// The view of an outcome that holds a record: the record by its bytes.
pub open spec fn record_view(out: Result<Vec<u8>, GenerationError>) -> Result<
    Seq<u8>,
    GenerationError,
> {
    match out {
        Ok(bytes) => Ok(bytes@),
        Err(e) => Err(e),
    }
}

/// The JSON object that holds the six literals under the names of a user's
/// fields, in the order of their declaration, with no space between the
/// tokens.
pub open spec fn framed(
    firstname: Seq<char>,
    lastname: Seq<char>,
    email: Seq<char>,
    phone_number: Seq<char>,
    username: Seq<char>,
    password: Seq<char>,
) -> Seq<char> {
    "{\"firstname\":"@ + firstname + ",\"lastname\":"@ + lastname + ",\"email\":"@ + email
        + ",\"phone_number\":"@ + phone_number + ",\"username\":"@ + username
        + ",\"password\":"@ + password + "}"@
}

/// Keeps the literal of a call that succeeded and reports
/// `GenerationError::Serialize` for one that did not.
pub fn write_outcome(outcome: Result<String, serde_json::Error>) -> (out: Result<
    String,
    GenerationError,
>)
    ensures
        text_view(out) == written(outcome),
{
    match outcome {
        Ok(json) => Ok(json),
        Err(_) => Err(GenerationError::Serialize),
    }
}

/// Frames six JSON literals as the object of a user: each under the name of
/// its field, in the order of the declaration, with no space between the
/// tokens.
pub fn frame_object(
    firstname: &str,
    lastname: &str,
    email: &str,
    phone_number: &str,
    username: &str,
    password: &str,
) -> (json: String)
    ensures
        json@ == framed(firstname@, lastname@, email@, phone_number@, username@, password@),
{
    let mut json = String::from_str("{\"firstname\":");
    json.append(firstname);
    json.append(",\"lastname\":");
    json.append(lastname);
    json.append(",\"email\":");
    json.append(email);
    json.append(",\"phone_number\":");
    json.append(phone_number);
    json.append(",\"username\":");
    json.append(username);
    json.append(",\"password\":");
    json.append(password);
    json.append("}");
    json
}

/// An object of six literals holds a character, whatever the literals: it
/// opens with a brace.
pub proof fn lemma_framed_holds_a_character(
    firstname: Seq<char>,
    lastname: Seq<char>,
    email: Seq<char>,
    phone_number: Seq<char>,
    username: Seq<char>,
    password: Seq<char>,
)
    ensures
        framed(firstname, lastname, email, phone_number, username, password).len() > 0,
{
    reveal_strlit("{\"firstname\":");
}

/// Text that holds a character holds a byte in UTF-8.
pub proof fn lemma_encoded_holds_a_byte(text: Seq<char>)
    requires
        text.len() > 0,
    ensures
        encode_utf8(text).len() > 0,
{
    assert(encode_utf8(text) == encode_scalar(text[0] as u32) + encode_utf8(text.drop_first()));
    assert(encode_scalar(text[0] as u32).len() > 0);
}

impl User {
    /// The password has as many characters as a made-up one.
    pub open spec fn password_in_range(self) -> bool {
        PASSWORD_MIN <= self.password@.len() < PASSWORD_END
    }

    /// The JSON object for this user: the literal of each field under the
    /// field's name.
    pub open spec fn json(self) -> Seq<char> {
        framed(
            json_string_text(self.firstname@),
            json_string_text(self.lastname@),
            json_string_text(self.email@),
            json_string_text(self.phone_number@),
            json_string_text(self.username@),
            json_string_text(self.password@),
        )
    }

    /// The record for this user: its JSON object in UTF-8.
    pub open spec fn record(self) -> Seq<u8> {
        encode_utf8(self.json())
    }

    /// The user that six strings make up, each string in the field that it
    /// is given for.
    pub fn new(
        firstname: String,
        lastname: String,
        email: String,
        phone_number: String,
        username: String,
        password: String,
    ) -> (user: User)
        ensures
            user == (User { firstname, lastname, email, phone_number, username, password }),
    {
        User { firstname, lastname, email, phone_number, username, password }
    }

    /// Makes up a user, each field from a draw of its own and the draws
    /// independent of each other: two names, an address, a phone number, a
    /// user name and a password.
    pub fn generate() -> (user: User)
        ensures
            user.password_in_range(),
    {
        let firstname = fake_name();
        let lastname = fake_name();
        let email = fake_safe_email();
        let phone_number = fake_phone_number();
        let username = fake_username();
        let password = fake_password(PASSWORD_MIN, PASSWORD_END);
        User::new(firstname, lastname, email, phone_number, username, password)
    }

    /// Writes this user as a JSON object. Every string can be written, so
    /// the result is never an error.
    pub fn to_json(&self) -> (out: Result<String, GenerationError>)
        ensures
            text_view(out) == Ok::<Seq<char>, GenerationError>(self.json()),
    {
        let firstname = write_outcome(json_string(self.firstname.as_str()))?;
        let lastname = write_outcome(json_string(self.lastname.as_str()))?;
        let email = write_outcome(json_string(self.email.as_str()))?;
        let phone_number = write_outcome(json_string(self.phone_number.as_str()))?;
        let username = write_outcome(json_string(self.username.as_str()))?;
        let password = write_outcome(json_string(self.password.as_str()))?;
        Ok(frame_object(
            firstname.as_str(),
            lastname.as_str(),
            email.as_str(),
            phone_number.as_str(),
            username.as_str(),
            password.as_str(),
        ))
    }

    /// Writes this user as a record: the JSON object in UTF-8. Every
    /// string can be written, so the result is never an error.
    pub fn to_record(&self) -> (out: Result<Vec<u8>, GenerationError>)
        ensures
            record_view(out) == Ok::<Seq<u8>, GenerationError>(self.record()),
    {
        let json = self.to_json()?;
        let record = json.as_str().as_bytes_vec();
        Ok(record)
    }
}

} // verus!
