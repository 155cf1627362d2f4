use vstd::prelude::*;
use crate::badge::{base64_of, encode_base64};
use crate::text::{concat, str_eq};

verus! {

/// The name under which the desktop reports its login screen: reaching it
/// means that the user has left.
pub const LOGIN_WINDOW: &'static str = "loginwindow";

/// What the desktop observer sends when the foreground application changes.
#[derive(Debug, PartialEq, Eq)]
pub enum Report {
    /// The user left: clear the current activity.
    Clear,
    /// The user switched to the application `name`, whose icon is `icon`.
    Update { name: String, icon: String },
}

/// The data URI of a PNG image.
pub open spec fn png_data_uri(png: Seq<u8>) -> Seq<char> {
    "data:image/png;base64,"@ + base64_of(png)
}

/// The data URI of a PNG image given by its bytes.
pub fn png_icon_uri(png: &[u8]) -> (r: String)
    requires
        png@.len() <= usize::MAX / 4,
    ensures
        r@ == png_data_uri(png@),
{
    let encoded = encode_base64(png);
    concat("data:image/png;base64,", encoded.as_str())
}

/// The report for a switch to the application `app_name` with icon `png`.
pub fn report_for(app_name: &str, png: &[u8]) -> (r: Report)
    requires
        png@.len() <= usize::MAX / 4,
    ensures
        if app_name@ == LOGIN_WINDOW@ {
            r is Clear
        } else {
            r is Update && r->name@ == app_name@ && r->icon@ == png_data_uri(png@)
        },
{
    if str_eq(app_name, LOGIN_WINDOW) {
        Report::Clear
    } else {
        Report::Update { name: String::from_str(app_name), icon: png_icon_uri(png) }
    }
}

/// The `Authorization` header value that carries `token`.
pub fn authorization_value(token: &str) -> (r: String)
    ensures
        r@ == "Bearer "@ + token@,
{
    concat("Bearer ", token)
}

} // verus!
