use vstd::prelude::*;
use crate::activity::{opt_activity_view, opt_str_view, clone_opt_string, Activity, ActivityModel};
use crate::text::concat;
use vstd::string::StringSliceAdditionalSpecFns;
use base64ct::Encoding;

verus! {

/// The icon of the idle badge: a crescent moon (Eva Icons, filled).
pub const IDLE_ICON_SVG: &'static str = r##"<svg xmlns="http://www.w3.org/2000/svg" viewBox="0 0 24 24"><defs><style>.cls-1{fill:#fff;opacity:0;}.cls-2{fill:#fff;}</style></defs><title>moon</title><g id="Layer_2" data-name="Layer 2"><g id="moon"><g id="moon-2" data-name="moon"><rect class="cls-1" width="24" height="24"/><path class="cls-2" d="M12.3,22h-.1a10.31,10.31,0,0,1-7.34-3.15,10.46,10.46,0,0,1-.26-14,10.13,10.13,0,0,1,4-2.74,1,1,0,0,1,1.06.22,1,1,0,0,1,.24,1,8.4,8.4,0,0,0,1.94,8.81,8.47,8.47,0,0,0,8.83,1.94,1,1,0,0,1,1.27,1.29A10.16,10.16,0,0,1,19.6,19,10.28,10.28,0,0,1,12.3,22Z"/></g></g></g></svg>"##;

/// What a badge shows: a label, an optional icon given as a data URI, and a
/// status text.
pub struct BadgeContent {
    pub label: String,
    pub icon: Option<String>,
    pub status: String,
}

pub struct BadgeModel {
    pub label: Seq<char>,
    pub icon: Option<Seq<char>>,
    pub status: Seq<char>,
}

impl View for BadgeContent {
    type V = BadgeModel;

    open spec fn view(&self) -> BadgeModel {
        BadgeModel { label: self.label@, icon: opt_str_view(self.icon), status: self.status@ }
    }
}

/// The standard, padded Base64 text of `bytes`.
pub uninterp spec fn base64_of(bytes: Seq<u8>) -> Seq<char>;

/// Relies on base64ct's `Base64::encode_string`: standard padded Base64, four
/// characters for each started group of three bytes. It panics when four
/// times the input length overflows.
#[verifier::external_body]
pub(crate) fn encode_base64(bytes: &[u8]) -> (r: String)
    requires
        bytes@.len() <= usize::MAX / 4,
    ensures
        r@ == base64_of(bytes@),
        r@.len() == 4 * ((bytes@.len() + 2) / 3),
{
    base64ct::Base64::encode_string(bytes)
}

/// The SVG document that shows `label`, `icon` and `status` as a badge.
pub uninterp spec fn badge_svg_of(label: Seq<char>, icon: Option<Seq<char>>, status: Seq<char>) -> Seq<char>;

/// Relies on spacebadgers' `BadgeBuilder` and `Badge::svg`: the markup depends
/// on the label, icon and status alone.
#[verifier::external_body]
fn render_svg(label: &str, icon: &Option<String>, status: &str) -> (r: String)
    ensures
        r@ == badge_svg_of(label@, opt_str_view(*icon), status@),
{
    spacebadgers::BadgeBuilder::new()
        .label(label.to_owned())
        .optional_icon(icon.clone())
        .status(status.to_owned())
        .build()
        .svg()
}

/// The data URI of an SVG image given by its bytes.
pub open spec fn svg_data_uri(svg: Seq<u8>) -> Seq<char> {
    "data:image/svg+xml;base64,"@ + base64_of(svg)
}

/// What the badge of a cell shows: "Using <name>" with the record's icon, or
/// "Sleeping" with the moon when the cell is idle.
pub open spec fn badge_model(record: Option<ActivityModel>) -> BadgeModel {
    match record {
        Some(a) => BadgeModel { label: "Using "@ + a.name, icon: a.icon, status: "Now"@ },
        None => BadgeModel {
            label: "Sleeping"@,
            icon: Some(svg_data_uri(IDLE_ICON_SVG.spec_bytes())),
            status: "Now"@,
        },
    }
}

/// The data URI of an SVG image.
pub fn svg_icon_uri(svg: &str) -> (r: String)
    requires
        svg.spec_bytes().len() <= usize::MAX / 4,
    ensures
        r@ == svg_data_uri(svg.spec_bytes()),
{
    let encoded = encode_base64(svg.as_bytes());
    concat("data:image/svg+xml;base64,", encoded.as_str())
}

/// The badge of an idle user.
pub fn idle_badge() -> (r: BadgeContent)
    ensures
        r@ == badge_model(None),
{
    proof {
        reveal_strlit(r##"<svg xmlns="http://www.w3.org/2000/svg" viewBox="0 0 24 24"><defs><style>.cls-1{fill:#fff;opacity:0;}.cls-2{fill:#fff;}</style></defs><title>moon</title><g id="Layer_2" data-name="Layer 2"><g id="moon"><g id="moon-2" data-name="moon"><rect class="cls-1" width="24" height="24"/><path class="cls-2" d="M12.3,22h-.1a10.31,10.31,0,0,1-7.34-3.15,10.46,10.46,0,0,1-.26-14,10.13,10.13,0,0,1,4-2.74,1,1,0,0,1,1.06.22,1,1,0,0,1,.24,1,8.4,8.4,0,0,0,1.94,8.81,8.47,8.47,0,0,0,8.83,1.94,1,1,0,0,1,1.27,1.29A10.16,10.16,0,0,1,19.6,19,10.28,10.28,0,0,1,12.3,22Z"/></g></g></g></svg>"##);
        broadcast use vstd::string::is_ascii_spec_bytes;
        assert(vstd::string::is_ascii(IDLE_ICON_SVG));
    }
    BadgeContent {
        label: String::from_str("Sleeping"),
        icon: Some(svg_icon_uri(IDLE_ICON_SVG)),
        status: String::from_str("Now"),
    }
}

/// The badge of a user who is using `activity`.
pub fn activity_badge(activity: &Activity) -> (r: BadgeContent)
    ensures
        r@ == badge_model(Some(activity@)),
{
    BadgeContent {
        label: concat("Using ", activity.name.as_str()),
        icon: clone_opt_string(&activity.icon),
        status: String::from_str("Now"),
    }
}

/// The badge of a cell whose record is `record`.
pub fn badge_content(record: &Option<Activity>) -> (r: BadgeContent)
    ensures
        r@ == badge_model(opt_activity_view(*record)),
{
    match record {
        Some(a) => activity_badge(a),
        None => idle_badge(),
    }
}

/// The SVG markup of a badge.
pub fn render_badge(content: &BadgeContent) -> (r: String)
    ensures
        r@ == badge_svg_of(content@.label, content@.icon, content@.status),
{
    render_svg(content.label.as_str(), &content.icon, content.status.as_str())
}

} // verus!
