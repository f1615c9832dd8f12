//! Address input: a free-form query or a structured address, and its
//! encodings for single and batch requests.
use vstd::prelude::*;
use vstd::string::*;

use crate::errors::Error;

verus! {

/// A structured address as supplied by the caller.
pub struct AddressInput {
    pub line_1: Option<String>,
    pub line_2: Option<String>,
    pub city: Option<String>,
    pub state: Option<String>,
    pub country: Option<String>,
    pub postal_code: Option<String>,
}

/// The two ways of naming an address: free-form text, or structured fields.
pub enum AddressParams {
    String(String),
    AddressInput(AddressInput),
}

/// The text of an optional field, with an absent field read as empty.
pub open spec fn text_or_empty(o: Option<String>) -> Seq<char> {
    match o {
        Some(s) => s@,
        None => Seq::empty(),
    }
}

/// `street=<line_1>&city=<city>&state=<state>&country=<country>&postal_code=<postal_code>`
pub open spec fn structured_query(a: AddressInput) -> Seq<char> {
    "street="@ + text_or_empty(a.line_1) + "&city="@ + text_or_empty(a.city) + "&state="@
        + text_or_empty(a.state) + "&country="@ + text_or_empty(a.country) + "&postal_code="@
        + text_or_empty(a.postal_code)
}

/// `<line_1> <city>, <state>, <country>, <postal_code>`
pub open spec fn one_line(a: AddressInput) -> Seq<char> {
    text_or_empty(a.line_1) + " "@ + text_or_empty(a.city) + ", "@ + text_or_empty(a.state)
        + ", "@ + text_or_empty(a.country) + ", "@ + text_or_empty(a.postal_code)
}

/// The query that names an address in a single geocode request: free-form
/// text goes unmodified as the `q` parameter's value.
pub open spec fn address_query(a: AddressParams) -> Seq<char> {
    match a {
        AddressParams::String(s) => "q="@ + s@,
        AddressParams::AddressInput(i) => structured_query(i),
    }
}

/// The text that stands for an address in a batch request.
pub open spec fn batch_text(a: AddressParams) -> Seq<char> {
    match a {
        AddressParams::String(s) => s@,
        AddressParams::AddressInput(i) => one_line(i),
    }
}

/// An address with no text: empty free-form text, or a structured address
/// whose parts that are sent are all absent or empty.
pub open spec fn is_empty_address(a: AddressParams) -> bool {
    match a {
        AddressParams::String(s) => s@.len() == 0,
        AddressParams::AddressInput(i) => text_or_empty(i.line_1).len() == 0 && text_or_empty(
            i.city,
        ).len() == 0 && text_or_empty(i.state).len() == 0 && text_or_empty(i.country).len() == 0
            && text_or_empty(i.postal_code).len() == 0,
    }
}

fn field_text(o: &Option<String>) -> (r: &str)
    ensures
        r@ == text_or_empty(*o),
{
    match o {
        Some(s) => s.as_str(),
        None => {
            proof {
                reveal_strlit("");
            }
            ""
        },
    }
}

impl AddressInput {
    /// The query-parameter encoding of a structured address. Every position
    /// is present; an absent field is written as the empty string.
    pub fn fmt_string(&self) -> (r: String)
        ensures
            r@ == structured_query(*self),
    {
        let mut r = String::from_str("street=");
        r.append(field_text(&self.line_1));
        r.append("&city=");
        r.append(field_text(&self.city));
        r.append("&state=");
        r.append(field_text(&self.state));
        r.append("&country=");
        r.append(field_text(&self.country));
        r.append("&postal_code=");
        r.append(field_text(&self.postal_code));
        r
    }

    /// The address on one line, as sent in a batch request.
    pub fn to_string(&self) -> (r: String)
        ensures
            r@ == one_line(*self),
    {
        let mut r = String::from_str(field_text(&self.line_1));
        r.append(" ");
        r.append(field_text(&self.city));
        r.append(", ");
        r.append(field_text(&self.state));
        r.append(", ");
        r.append(field_text(&self.country));
        r.append(", ");
        r.append(field_text(&self.postal_code));
        r
    }
}

impl AddressParams {
    /// The query parameters that name this address in a single request.
    pub fn query_string(&self) -> (r: String)
        ensures
            r@ == address_query(*self),
    {
        match self {
            AddressParams::String(s) => {
                let mut r = String::from_str("q=");
                r.append(s.as_str());
                r
            },
            AddressParams::AddressInput(i) => i.fmt_string(),
        }
    }

    /// Refuses an address with no text before it is sent.
    pub fn require_text(&self) -> (r: Result<(), Error>)
        ensures
            is_empty_address(*self) ==> r matches Err(Error::EmptyAddress),
            !is_empty_address(*self) ==> r is Ok,
    {
        let empty = match self {
            AddressParams::String(s) => s.as_str().unicode_len() == 0,
            AddressParams::AddressInput(i) => field_text(&i.line_1).unicode_len() == 0
                && field_text(&i.city).unicode_len() == 0 && field_text(&i.state).unicode_len()
                == 0 && field_text(&i.country).unicode_len() == 0 && field_text(
                &i.postal_code,
            ).unicode_len() == 0,
        };
        if empty {
            Err(Error::EmptyAddress)
        } else {
            Ok(())
        }
    }

    /// The text of this address as one entry of a batch request.
    pub fn batch_text(&self) -> (r: String)
        ensures
            r@ == batch_text(*self),
    {
        match self {
            AddressParams::String(s) => s.clone(),
            AddressParams::AddressInput(i) => i.to_string(),
        }
    }
}

} // verus!
