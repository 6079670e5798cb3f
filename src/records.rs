//! The records that capabilities hold: activity items, addresses, e-mail
//! addresses, notes and phone numbers.

use crate::defaults::{access, default_access, id, is_uuid_text, now, NEVER};
use vstd::prelude::*;
use vstd::utf8::*;

verus! {

/// The outcome of compiling `pattern` with the `regex` crate and matching
/// it against `text`: `None` when the pattern does not compile.
pub uninterp spec fn regex_verdict(pattern: Seq<char>, text: Seq<char>) -> Option<bool>;

/// What `String::from_utf8_lossy` makes of the bytes.
pub uninterp spec fn lossy_text(bytes: Seq<u8>) -> Seq<char>;

/// `needle` occurs in `hay` as a run of consecutive characters.
pub open spec fn occurs_in(needle: Seq<char>, hay: Seq<char>) -> bool {
    exists|i: int|
        0 <= i && i + needle.len() <= hay.len() && #[trigger] hay.subrange(i, i + needle.len())
            == needle
}

/// Relies on `regex::Regex::new` (an error when the pattern does not
/// compile) and `Regex::is_match`.
#[verifier::external_body]
fn regex_match(pattern: &str, text: &str) -> (r: Option<bool>)
    ensures
        r == regex_verdict(pattern@, text@),
{
    match regex::Regex::new(pattern) {
        Ok(re) => Some(re.is_match(text)),
        Err(_) => None,
    }
}

/// Relies on `String::from_utf8`: `Ok` exactly for valid UTF-8, with the
/// text that the bytes encode; the error hands the bytes back.
#[verifier::external_body]
fn utf8_text(bytes: Vec<u8>) -> (r: Result<String, Vec<u8>>)
    ensures
        match r {
            Ok(s) => valid_utf8(bytes@) && s@ == decode_utf8(bytes@),
            Err(b) => !valid_utf8(bytes@) && b@ == bytes@,
        },
{
    match String::from_utf8(bytes) {
        Ok(s) => Ok(s),
        Err(e) => Err(e.into_bytes()),
    }
}

/// Relies on `String::from_utf8_lossy`: invalid sequences become U+FFFD,
/// valid UTF-8 decodes as it is.
#[verifier::external_body]
fn utf8_text_lossy(bytes: &[u8]) -> (r: String)
    ensures
        r@ == lossy_text(bytes@),
        valid_utf8(bytes@) ==> r@ == decode_utf8(bytes@),
{
    String::from_utf8_lossy(bytes).into_owned()
}

/// Relies on `str::contains` with a `&str` pattern.
#[verifier::external_body]
pub(crate) fn text_contains(hay: &str, needle: &str) -> (r: bool)
    ensures
        r == occurs_in(needle@, hay@),
{
    hay.contains(needle)
}

/// The later of the clock reading and the creation time.
fn touch(created_dtm: i64) -> (r: i64)
    ensures
        r >= created_dtm,
        r <= NEVER || r == created_dtm,
{
    let t = now();
    if t < created_dtm {
        created_dtm
    } else {
        t
    }
}

/// One entry of an entity's activity log.
#[derive(Debug)]
pub struct ActivityItem {
    /// When the action happened.
    pub created_dtm: i64,
    /// The name of the action.
    pub action: String,
    /// What happened.
    pub description: String,
}

impl Clone for ActivityItem {
    fn clone(&self) -> (r: Self)
        ensures
            r == *self,
    {
        ActivityItem {
            created_dtm: self.created_dtm,
            action: self.action.clone(),
            description: self.description.clone(),
        }
    }
}

impl ActivityItem {
    /// An item for `name`, stamped with the current time.
    pub fn new(name: String, descr: String) -> (r: Self)
        ensures
            r.action == name,
            r.description == descr,
            0 <= r.created_dtm <= NEVER,
    {
        ActivityItem { created_dtm: now(), action: name, description: descr }
    }
}

/// A postal address.
#[derive(Debug)]
pub struct Address {
    pub id: String,
    pub created_dtm: i64,
    pub modified_dtm: i64,
    /// The kind of address: billing, shipping, home, work, ...
    pub category: String,
    /// The full name of the location.
    pub line_1: String,
    /// House number and street, or PO box.
    pub line_2: String,
    /// City, then province, state or county, and postal code.
    pub line_3: String,
    /// The country.
    pub line_4: String,
    /// The ISO alpha-3 code of the country.
    pub country_code: String,
}

impl Clone for Address {
    fn clone(&self) -> (r: Self)
        ensures
            r == *self,
    {
        Address {
            id: self.id.clone(),
            created_dtm: self.created_dtm,
            modified_dtm: self.modified_dtm,
            category: self.category.clone(),
            line_1: self.line_1.clone(),
            line_2: self.line_2.clone(),
            line_3: self.line_3.clone(),
            line_4: self.line_4.clone(),
            country_code: self.country_code.clone(),
        }
    }
}

impl Address {
    /// Never modified before it was created.
    pub open spec fn wf(&self) -> bool {
        self.created_dtm <= self.modified_dtm
    }

    /// A new address with a fresh identifier, created and modified now.
    pub fn new(
        category: String,
        line_1: String,
        line_2: String,
        line_3: String,
        line_4: String,
        country_code: String,
    ) -> (r: Self)
        ensures
            is_uuid_text(r.id@),
            0 <= r.created_dtm <= NEVER,
            r.modified_dtm == r.created_dtm,
            r.category == category,
            r.line_1 == line_1,
            r.line_2 == line_2,
            r.line_3 == line_3,
            r.line_4 == line_4,
            r.country_code == country_code,
    {
        let t = now();
        Address {
            id: id(),
            created_dtm: t,
            modified_dtm: t,
            category,
            line_1,
            line_2,
            line_3,
            line_4,
            country_code,
        }
    }

    /// Replaces every descriptive field and moves `modified_dtm` to now
    /// (never before `created_dtm`).
    pub fn update(
        &mut self,
        category: String,
        line_1: String,
        line_2: String,
        line_3: String,
        line_4: String,
        country_code: String,
    )
        ensures
            final(self).id == old(self).id,
            final(self).created_dtm == old(self).created_dtm,
            final(self).modified_dtm >= old(self).created_dtm,
            final(self).category == category,
            final(self).line_1 == line_1,
            final(self).line_2 == line_2,
            final(self).line_3 == line_3,
            final(self).line_4 == line_4,
            final(self).country_code == country_code,
    {
        self.category = category;
        self.line_1 = line_1;
        self.line_2 = line_2;
        self.line_3 = line_3;
        self.line_4 = line_4;
        self.country_code = country_code;
        self.modified_dtm = touch(self.created_dtm);
    }
}

/// The grammar that a well-formed e-mail address follows.
pub open spec fn email_grammar() -> Seq<char> {
    EMAIL_PATTERN_TEXT@
}

/// A regular expression for RFC 5322 addresses.
pub const EMAIL_PATTERN_TEXT: &'static str =
    r#"(?:[a-z0-9!#$%&'*+/=?^_`{|}~-]+(?:\.[a-z0-9!#$%&'*+/=?^_`{|}~-]+)*|"(?:[\x01-\x08\x0b\x0c\x0e-\x1f\x21\x23-\x5b\x5d-\x7f]|\\[\x01-\x09\x0b\x0c\x0e-\x7f])*")@(?:(?:[a-z0-9](?:[a-z0-9-]*[a-z0-9])?\.)+[a-z0-9](?:[a-z0-9-]*[a-z0-9])?|\[(?:(?:25[0-5]|2[0-4][0-9]|[01]?[0-9][0-9]?)\.){3}(?:25[0-5]|2[0-4][0-9]|[01]?[0-9][0-9]?|[a-z0-9-]*[a-z0-9]:(?:[\x01-\x08\x0b\x0c\x0e-\x1f\x21-\x5a\x53-\x7f]|\\[\x01-\x09\x0b\x0c\x0e-\x7f])+)\])"#;

/// An e-mail address.
#[derive(Debug)]
pub struct EmailAddress {
    pub id: String,
    pub created_dtm: i64,
    pub modified_dtm: i64,
    /// The kind of address: login, personal, work, ...
    pub category: String,
    /// The address itself.
    pub address: String,
}

impl Clone for EmailAddress {
    fn clone(&self) -> (r: Self)
        ensures
            r == *self,
    {
        EmailAddress {
            id: self.id.clone(),
            created_dtm: self.created_dtm,
            modified_dtm: self.modified_dtm,
            category: self.category.clone(),
            address: self.address.clone(),
        }
    }
}

impl EmailAddress {
    /// A new e-mail address with a fresh identifier, created and modified now.
    pub fn new(category: String, address: String) -> (r: Self)
        ensures
            is_uuid_text(r.id@),
            0 <= r.created_dtm <= NEVER,
            r.modified_dtm == r.created_dtm,
            r.category == category,
            r.address == address,
    {
        let t = now();
        EmailAddress { id: id(), created_dtm: t, modified_dtm: t, category, address }
    }

    /// Whether the address follows the e-mail grammar; a structural check,
    /// not one of deliverability.
    pub fn is_valid(&self) -> (r: bool)
        ensures
            r == (regex_verdict(email_grammar(), self.address@) == Some(true)),
    {
        match regex_match(EMAIL_PATTERN_TEXT, self.address.as_str()) {
            Some(b) => b,
            None => false,
        }
    }
}

/// A note: free content, kept as bytes, with an author and an access level.
#[derive(Debug)]
pub struct Note {
    pub id: String,
    pub created_dtm: i64,
    pub modified_dtm: i64,
    /// Who wrote the note.
    pub author: String,
    /// The access rule: public, internal, confidential, ...
    pub access: String,
    /// The content; not necessarily valid UTF-8.
    pub content: Vec<u8>,
}

impl Clone for Note {
    fn clone(&self) -> (r: Self)
        ensures
            r.same_as(*self),
    {
        let r = Note {
            id: self.id.clone(),
            created_dtm: self.created_dtm,
            modified_dtm: self.modified_dtm,
            author: self.author.clone(),
            access: self.access.clone(),
            content: self.content.clone(),
        };
        assert(r.content@ =~= self.content@);
        r
    }
}

impl Note {
    /// Equal field by field, the content byte for byte.
    pub open spec fn same_as(self, other: Note) -> bool {
        &&& self.id == other.id
        &&& self.created_dtm == other.created_dtm
        &&& self.modified_dtm == other.modified_dtm
        &&& self.author == other.author
        &&& self.access == other.access
        &&& self.content@ == other.content@
    }

    /// A new note with a fresh identifier; without an access level it is
    /// `public`.
    pub fn new(auth: String, cont: Vec<u8>, acc: Option<String>) -> (r: Self)
        ensures
            is_uuid_text(r.id@),
            0 <= r.created_dtm <= NEVER,
            r.modified_dtm == r.created_dtm,
            r.author == auth,
            r.content == cont,
            r.access@ == match acc {
                Some(a) => a@,
                None => default_access(),
            },
    {
        let t = now();
        let access = match acc {
            Some(a) => a,
            None => access(),
        };
        Note { id: id(), created_dtm: t, modified_dtm: t, author: auth, access, content: cont }
    }

    /// The content as text: `Ok` when it is valid UTF-8; otherwise `Err`
    /// with the text in which each invalid sequence became U+FFFD.
    pub fn content_as_string(&self) -> (r: Result<String, String>)
        ensures
            match r {
                Ok(s) => valid_utf8(self.content@) && s@ == decode_utf8(self.content@),
                Err(s) => !valid_utf8(self.content@) && s@ == lossy_text(self.content@),
            },
    {
        match utf8_text(self.content.clone()) {
            Ok(s) => Ok(s),
            Err(bytes) => Err(utf8_text_lossy(bytes.as_slice())),
        }
    }

    /// The content read as text, invalid sequences replaced by U+FFFD.
    pub fn content_text(&self) -> (r: String)
        ensures
            r@ == lossy_text(self.content@),
            valid_utf8(self.content@) ==> r@ == decode_utf8(self.content@),
    {
        utf8_text_lossy(self.content.as_slice())
    }

    /// Replaces author and content, and the access level when one is given;
    /// moves `modified_dtm` to now (never before `created_dtm`).
    pub fn update(&mut self, auth: String, cont: Vec<u8>, acc: Option<String>)
        ensures
            final(self).id == old(self).id,
            final(self).created_dtm == old(self).created_dtm,
            final(self).modified_dtm >= old(self).created_dtm,
            final(self).author == auth,
            final(self).content == cont,
            final(self).access == match acc {
                Some(a) => a,
                None => old(self).access,
            },
    {
        self.author = auth;
        self.content = cont;
        match acc {
            Some(a) => {
                self.access = a;
            },
            None => {},
        }
        self.modified_dtm = touch(self.created_dtm);
    }
}

/// A phone number.
#[derive(Debug)]
pub struct PhoneNumber {
    pub id: String,
    pub created_dtm: i64,
    pub modified_dtm: i64,
    /// The kind of number: home, work, mobile, ...
    pub category: String,
    /// The number itself.
    pub number: String,
    /// The ISO alpha-3 code of the country.
    pub country_code: String,
}

impl Clone for PhoneNumber {
    fn clone(&self) -> (r: Self)
        ensures
            r == *self,
    {
        PhoneNumber {
            id: self.id.clone(),
            created_dtm: self.created_dtm,
            modified_dtm: self.modified_dtm,
            category: self.category.clone(),
            number: self.number.clone(),
            country_code: self.country_code.clone(),
        }
    }
}

impl PhoneNumber {
    /// A new phone number with a fresh identifier, created and modified now.
    pub fn new(category: String, number: String, country_code: String) -> (r: Self)
        ensures
            is_uuid_text(r.id@),
            0 <= r.created_dtm <= NEVER,
            r.modified_dtm == r.created_dtm,
            r.category == category,
            r.number == number,
            r.country_code == country_code,
    {
        let t = now();
        PhoneNumber { id: id(), created_dtm: t, modified_dtm: t, category, number, country_code }
    }
}

} // verus!
