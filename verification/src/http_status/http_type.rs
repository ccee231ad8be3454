use vstd::prelude::*;
use vstd::string::*;
use crate::text::{decimal, digit_chars};

verus! {

/// The HTTP statuses the server answers with.
#[derive(Clone, Copy, Debug, PartialEq, Eq, Structural)]
pub enum HttpType {
    /// 200, shown by name as `Ok`.
    OK,
    BadRequest,
    NotFound,
    InternalError,
    UnprocessableEntity,
}

/// The status text of a response line is the decimal writing of the
/// status's numeric code; the codes are distinct, success is in the 2xx
/// class, refusals of the request in the 4xx class and the internal failure
/// in the 5xx class.
pub proof fn lemma_code_text_spells_code(status: HttpType, other: HttpType)
    ensures
        status.code_text()@ == decimal(status.status_code() as nat),
        status != other ==> status.status_code() != other.status_code(),
        status == HttpType::OK ==> 200 <= status.status_code() < 300,
        (status == HttpType::BadRequest || status == HttpType::NotFound || status
            == HttpType::UnprocessableEntity) ==> 400 <= status.status_code() < 500,
        status == HttpType::InternalError ==> 500 <= status.status_code() < 600,
{
    reveal_strlit("200");
    reveal_strlit("400");
    reveal_strlit("404");
    reveal_strlit("422");
    reveal_strlit("500");
    let d = digit_chars();
    assert(decimal(2) == seq![d[2]]);
    assert(decimal(4) == seq![d[4]]);
    assert(decimal(5) == seq![d[5]]);
    assert(decimal(20) == decimal(2).push(d[0]));
    assert(decimal(40) == decimal(4).push(d[0]));
    assert(decimal(42) == decimal(4).push(d[2]));
    assert(decimal(50) == decimal(5).push(d[0]));
    assert(decimal(200) == decimal(20).push(d[0]));
    assert(decimal(400) == decimal(40).push(d[0]));
    assert(decimal(404) == decimal(40).push(d[4]));
    assert(decimal(422) == decimal(42).push(d[2]));
    assert(decimal(500) == decimal(50).push(d[0]));
    assert("200"@ =~= decimal(200));
    assert("400"@ =~= decimal(400));
    assert("404"@ =~= decimal(404));
    assert("422"@ =~= decimal(422));
    assert("500"@ =~= decimal(500));
}

impl HttpType {
    /// The numeric status code.
    pub open spec fn status_code(self) -> u32 {
        match self {
            HttpType::OK => 200,
            HttpType::BadRequest => 400,
            HttpType::NotFound => 404,
            HttpType::InternalError => 500,
            HttpType::UnprocessableEntity => 422,
        }
    }

    /// The status code as decimal text.
    pub open spec fn code_text(self) -> &'static str {
        match self {
            HttpType::OK => "200",
            HttpType::BadRequest => "400",
            HttpType::NotFound => "404",
            HttpType::InternalError => "500",
            HttpType::UnprocessableEntity => "422",
        }
    }

    /// The variant's name.
    pub open spec fn name(self) -> &'static str {
        match self {
            HttpType::OK => "Ok",
            HttpType::BadRequest => "BadRequest",
            HttpType::NotFound => "NotFound",
            HttpType::InternalError => "InternalError",
            HttpType::UnprocessableEntity => "UnprocessableEntity",
        }
    }

    /// The numeric status code.
    pub fn code(&self) -> (c: u32)
        ensures
            c == self.status_code(),
    {
        match self {
            HttpType::OK => 200,
            HttpType::BadRequest => 400,
            HttpType::NotFound => 404,
            HttpType::InternalError => 500,
            HttpType::UnprocessableEntity => 422,
        }
    }

    /// The status code as decimal text.
    pub fn code_str(&self) -> (s: &'static str)
        ensures
            s == self.code_text(),
    {
        match self {
            HttpType::OK => "200",
            HttpType::BadRequest => "400",
            HttpType::NotFound => "404",
            HttpType::InternalError => "500",
            HttpType::UnprocessableEntity => "422",
        }
    }

    /// The variant's name, as the type shows itself in text.
    pub fn to_string(&self) -> (s: String)
        ensures
            s@ == self.name()@,
    {
        match self {
            HttpType::OK => String::from_str("Ok"),
            HttpType::BadRequest => String::from_str("BadRequest"),
            HttpType::NotFound => String::from_str("NotFound"),
            HttpType::InternalError => String::from_str("InternalError"),
            HttpType::UnprocessableEntity => String::from_str("UnprocessableEntity"),
        }
    }
}

} // verus!
