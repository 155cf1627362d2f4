use vstd::prelude::*;

verus! {

/// What a user is currently doing: a display name and, optionally, an icon
/// given as a data URI.
pub struct Activity {
    pub name: String,
    pub icon: Option<String>,
}

/// The mathematical value of an [`Activity`].
pub struct ActivityModel {
    pub name: Seq<char>,
    pub icon: Option<Seq<char>>,
}

pub open spec fn opt_str_view(o: Option<String>) -> Option<Seq<char>> {
    match o {
        Some(s) => Some(s@),
        None => None,
    }
}

impl View for Activity {
    type V = ActivityModel;

    open spec fn view(&self) -> ActivityModel {
        ActivityModel { name: self.name@, icon: opt_str_view(self.icon) }
    }
}

pub open spec fn opt_activity_view(o: Option<Activity>) -> Option<ActivityModel> {
    match o {
        Some(a) => Some(a@),
        None => None,
    }
}

/// A record may be stored only when its name is not empty.
pub open spec fn is_valid_activity(a: ActivityModel) -> bool {
    a.name.len() > 0
}

/// Why a write to an activity cell was refused.
#[derive(Debug, PartialEq, Eq, Structural, Clone, Copy)]
pub enum ActivityError {
    /// The record's name is missing or empty.
    EmptyName,
}

pub fn clone_opt_string(o: &Option<String>) -> (r: Option<String>)
    ensures
        opt_str_view(r) == opt_str_view(*o),
{
    match o {
        Some(s) => Some(s.clone()),
        None => None,
    }
}

impl Activity {
    pub fn new(name: String, icon: Option<String>) -> (r: Activity)
        ensures
            r.name@ == name@,
            opt_str_view(r.icon) == opt_str_view(icon),
    {
        Activity { name, icon }
    }

    pub fn duplicate(&self) -> (r: Activity)
        ensures
            r@ == self@,
    {
        Activity { name: self.name.clone(), icon: clone_opt_string(&self.icon) }
    }

    /// Checks that the record can be stored.
    pub fn validate(&self) -> (r: Result<(), ActivityError>)
        ensures
            r is Ok <==> is_valid_activity(self@),
    {
        if self.name.as_str().unicode_len() == 0 {
            Err(ActivityError::EmptyName)
        } else {
            Ok(())
        }
    }
}

pub fn clone_opt_activity(o: &Option<Activity>) -> (r: Option<Activity>)
    ensures
        opt_activity_view(r) == opt_activity_view(*o),
{
    match o {
        Some(a) => Some(a.duplicate()),
        None => None,
    }
}

} // verus!
