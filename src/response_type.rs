use vstd::prelude::*;
use vstd::string::StringExecFns;

use crate::exceptions::LogicException;

verus! {

/// The wire formats a result can be serialized into.
#[derive(Debug, Copy, Clone, PartialEq, Eq, Structural)]
pub enum ResponseType {
    JSON,
    XML,
    TSV,
    CSV,
    TURTLE,
}

/// The canonical name of each format.
pub open spec fn response_type_name(t: ResponseType) -> Seq<char> {
    match t {
        ResponseType::JSON => "JSON"@,
        ResponseType::XML => "XML"@,
        ResponseType::TSV => "TSV"@,
        ResponseType::CSV => "CSV"@,
        ResponseType::TURTLE => "TURTLE"@,
    }
}

impl ResponseType {
    pub fn response_type_to_string(response_type: ResponseType) -> (r: &'static str)
        ensures
            r@ == response_type_name(response_type),
    {
        match response_type {
            ResponseType::JSON => "JSON",
            ResponseType::XML => "XML",
            ResponseType::TSV => "TSV",
            ResponseType::CSV => "CSV",
            ResponseType::TURTLE => "TURTLE",
        }
    }
}

/// Whether two strings hold the same characters.
fn same_text(a: &str, b: &str) -> (r: bool)
    ensures
        r == (a@ == b@),
{
    String::from_str(a) == String::from_str(b)
}

impl ResponseType {
    /// Reads a format from its canonical name; any other text is refused.
    pub fn from_str(s: &str) -> (r: Result<ResponseType, LogicException>)
        ensures
            r matches Ok(t) ==> response_type_name(t) == s@,
            r is Err <==> (forall|t: ResponseType| response_type_name(t) != s@),
            r matches Err(e) ==> e@ == "Logic Error: `"@
                + "Unmanaged ResposeType in response_type_to_string"@ + "`."@,
    {
        let r = if same_text(s, "JSON") {
            Ok(ResponseType::JSON)
        } else if same_text(s, "XML") {
            Ok(ResponseType::XML)
        } else if same_text(s, "TSV") {
            Ok(ResponseType::TSV)
        } else if same_text(s, "CSV") {
            Ok(ResponseType::CSV)
        } else if same_text(s, "TURTLE") {
            Ok(ResponseType::TURTLE)
        } else {
            assert forall|t: ResponseType| response_type_name(t) != s@ by {
                match t {
                    ResponseType::JSON => {},
                    ResponseType::XML => {},
                    ResponseType::TSV => {},
                    ResponseType::CSV => {},
                    ResponseType::TURTLE => {},
                }
            }
            Err(LogicException::new("Unmanaged ResposeType in response_type_to_string"))
        };
        proof {
            if r is Ok {
                assert(response_type_name(r->Ok_0) == s@);
            }
        }
        r
    }
}

} // verus!
