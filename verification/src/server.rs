//! The greeting endpoints and the choice of the port to listen on.

use vstd::prelude::*;
use crate::number::{parse_u16, spec_parse_u16};
use crate::reply::{is_text_reply, Body, Reply, Status};

verus! {

/// The root endpoint: 200 and "Hello world!", with no content type.
pub fn hello() -> (r: Reply)
    ensures
        is_text_reply(r, Some(Status::Success), None, "Hello world!"@),
{
    Reply { status: Some(Status::Success), content_type: None, body: Body::Text(String::from_str("Hello world!")) }
}

/// The greeting for `name`: "Hello, " then the name then "!".
pub open spec fn greeting(name: Seq<char>) -> Seq<char> {
    "Hello, "@ + name + "!"@
}

/// The named greeting endpoint: 200 and "Hello, <name>!", with no content
/// type.
pub fn hello_name(name: &str) -> (r: Reply)
    ensures
        is_text_reply(r, Some(Status::Success), None, greeting(name@)),
{
    let mut text = String::from_str("Hello, ");
    text.append(name);
    text.append("!");
    Reply { status: Some(Status::Success), content_type: None, body: Body::Text(text) }
}

/// The port to listen on, from the value of the `PORT` variable: its value
/// when it is a decimal `u16`, and 8080 when it is unset or is not one.
pub fn get_server_port(port_var: Option<&str>) -> (r: u16)
    ensures
        r == match port_var {
            Some(p) => match spec_parse_u16(p@) {
                Ok(v) => v as u16,
                Err(_) => 8080u16,
            },
            None => 8080u16,
        },
{
    match port_var {
        Some(p) => match parse_u16(p) {
            Ok(v) => v,
            Err(_) => 8080,
        },
        None => 8080,
    }
}

} // verus!
