//! Countries and the lookups on the reference table.

use crate::country_table::country_table;
use vstd::prelude::*;

verus! {

/// A country.
#[derive(Debug)]
pub struct Country {
    /// The country's name.
    pub name: String,
    /// The code for international phone calls.
    pub phone_code: String,
    /// The ISO 3166 alpha-2 code.
    pub iso_2_code: String,
    /// The ISO 3166 alpha-3 code.
    pub iso_3_code: String,
}

impl Clone for Country {
    fn clone(&self) -> (r: Self)
        ensures
            r == *self,
    {
        Country {
            name: self.name.clone(),
            phone_code: self.phone_code.clone(),
            iso_2_code: self.iso_2_code.clone(),
            iso_3_code: self.iso_3_code.clone(),
        }
    }
}

impl Country {
    /// A country from its four fields.
    pub fn new(name: String, phone_code: String, iso_2_code: String, iso_3_code: String) -> (r:
        Self)
        ensures
            r.name == name,
            r.phone_code == phone_code,
            r.iso_2_code == iso_2_code,
            r.iso_3_code == iso_3_code,
    {
        Country { name, phone_code, iso_2_code, iso_3_code }
    }

    /// The two records hold the same text in every field.
    pub open spec fn same_fields(self, other: Country) -> bool {
        &&& self.name@ == other.name@
        &&& self.phone_code@ == other.phone_code@
        &&& self.iso_2_code@ == other.iso_2_code@
        &&& self.iso_3_code@ == other.iso_3_code@
    }
}

/// The field a lookup goes by.
#[derive(Debug, Clone, Copy, PartialEq, Eq, Structural)]
pub enum CountryCode {
    Iso2,
    Iso3,
    Phone,
}

pub open spec fn code_of(c: Country, kind: CountryCode) -> Seq<char> {
    match kind {
        CountryCode::Iso2 => c.iso_2_code@,
        CountryCode::Iso3 => c.iso_3_code@,
        CountryCode::Phone => c.phone_code@,
    }
}

/// The reference table of countries, read-only once built.
#[derive(Debug)]
pub struct Countries {
    /// The countries, in order of name.
    pub list: Vec<Country>,
}

impl Countries {
    /// `r` is the last country of the list whose code of `kind` is `code`,
    /// or `None` when there is none.
    pub open spec fn last_with(&self, kind: CountryCode, code: Seq<char>, r: Option<Country>) -> bool {
        match r {
            Some(c) => exists|i: int|
                0 <= i < self.list@.len() && self.list@[i] == c && code_of(c, kind) == code
                    && forall|j: int|
                    i < j < self.list@.len() ==> code_of(#[trigger] self.list@[j], kind) != code,
            None => forall|j: int|
                0 <= j < self.list@.len() ==> code_of(#[trigger] self.list@[j], kind) != code,
        }
    }

    /// The table of 240 countries, Afghanistan first.
    pub fn new() -> (r: Self)
        ensures
            r.list@.len() == 240,
            r.list@[0].name@ == "Afghanistan"@,
            r.list@[0].phone_code@ == "93"@,
            r.list@[0].iso_2_code@ == "AF"@,
            r.list@[0].iso_3_code@ == "AFG"@,
    {
        Countries { list: country_table() }
    }

    /// Whether the table holds a country equal to `country` in every field.
    pub fn is_valid(&self, country: Country) -> (r: bool)
        ensures
            r == exists|i: int| 0 <= i < self.list@.len() && (#[trigger] self.list@[i]).same_fields(country),
    {
        let mut i: usize = 0;
        while i < self.list.len()
            invariant
                0 <= i <= self.list@.len(),
                forall|j: int| 0 <= j < i ==> !(#[trigger] self.list@[j]).same_fields(country),
            decreases self.list@.len() - i,
        {
            let c = &self.list[i];
            if c.name == country.name && c.phone_code == country.phone_code && c.iso_2_code
                == country.iso_2_code && c.iso_3_code == country.iso_3_code {
                assert(self.list@[i as int].same_fields(country));
                return true;
            }
            i = i + 1;
        }
        false
    }

    fn code_matches(c: &Country, kind: CountryCode, code: &String) -> (r: bool)
        ensures
            r == (code_of(*c, kind) == code@),
    {
        match kind {
            CountryCode::Iso2 => c.iso_2_code == *code,
            CountryCode::Iso3 => c.iso_3_code == *code,
            CountryCode::Phone => c.phone_code == *code,
        }
    }

    /// The last country whose code of `kind` is `code`.
    pub fn find_last(&self, kind: CountryCode, code: &String) -> (r: Option<&Country>)
        ensures
            self.last_with(
                kind,
                code@,
                match r {
                    Some(c) => Some(*c),
                    None => None,
                },
            ),
    {
        let mut found: Option<usize> = None;
        let mut i: usize = 0;
        while i < self.list.len()
            invariant
                0 <= i <= self.list@.len(),
                match found {
                    Some(k) => k < i && code_of(self.list@[k as int], kind) == code@ && forall|j: int|
                        k < j < i ==> code_of(#[trigger] self.list@[j], kind) != code@,
                    None => forall|j: int| 0 <= j < i ==> code_of(#[trigger] self.list@[j], kind) != code@,
                },
            decreases self.list@.len() - i,
        {
            if Self::code_matches(&self.list[i], kind, code) {
                found = Some(i);
            }
            i = i + 1;
        }
        match found {
            Some(k) => {
                let c = &self.list[k];
                assert(self.list@[k as int] == *c);
                Some(c)
            },
            None => None,
        }
    }

    /// The last country with ISO alpha-2 code `iso_2_code`.
    pub fn get_country_by_iso_2_code(&self, iso_2_code: String) -> (r: Option<&Country>)
        ensures
            self.last_with(
                CountryCode::Iso2,
                iso_2_code@,
                match r {
                    Some(c) => Some(*c),
                    None => None,
                },
            ),
    {
        self.find_last(CountryCode::Iso2, &iso_2_code)
    }

    /// The last country with ISO alpha-3 code `iso_3_code`.
    pub fn get_country_by_iso_3_code(&self, iso_3_code: String) -> (r: Option<&Country>)
        ensures
            self.last_with(
                CountryCode::Iso3,
                iso_3_code@,
                match r {
                    Some(c) => Some(*c),
                    None => None,
                },
            ),
    {
        self.find_last(CountryCode::Iso3, &iso_3_code)
    }

    /// The last country with international phone code `phone_code`.
    pub fn get_country_by_phone_code(&self, phone_code: String) -> (r: Option<&Country>)
        ensures
            self.last_with(
                CountryCode::Phone,
                phone_code@,
                match r {
                    Some(c) => Some(*c),
                    None => None,
                },
            ),
    {
        self.find_last(CountryCode::Phone, &phone_code)
    }
}

} // verus!
