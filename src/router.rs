use vstd::prelude::*;
use crate::activity::{is_valid_activity, Activity, ActivityError};
use crate::auth::AuthError;
use crate::registry::{after_update, Users};
use crate::text::{badge_identity, parse_badge_path};

verus! {

/// The HTTP methods that the relay tells apart.
#[derive(Debug, PartialEq, Eq, Structural, Clone, Copy)]
pub enum Method {
    Get,
    Put,
    Delete,
    Other,
}

/// Where a request goes.
#[derive(Debug, PartialEq, Eq)]
pub enum Route {
    /// Read the badge of the identity named in the path.
    Badge(String),
    /// Replace the record of the identity that the bearer token resolves to.
    Update,
    /// Clear the record of the identity that the bearer token resolves to.
    Clear,
    /// No such route.
    NotFound,
}

/// The status code of a successful write.
pub const STATUS_NO_CONTENT: u16 = 204;
/// The status code of a refused record.
pub const STATUS_BAD_REQUEST: u16 = 400;
/// The status code of an unauthorized write.
pub const STATUS_UNAUTHORIZED: u16 = 401;
/// The status code of an unknown route.
pub const STATUS_NOT_FOUND: u16 = 404;

/// Maps a request to its route. Reads take the identity from the path; writes
/// exist only at `/` and carry no identity at all: it comes from the token.
pub fn route(method: Method, path: &str) -> (r: Route)
    ensures
        match method {
            Method::Get => match badge_identity(path@) {
                Some(id) => r is Badge && r->Badge_0@ == id,
                None => r is NotFound,
            },
            Method::Put => if path@ == "/"@ {
                r is Update
            } else {
                r is NotFound
            },
            Method::Delete => if path@ == "/"@ {
                r is Clear
            } else {
                r is NotFound
            },
            Method::Other => r is NotFound,
        },
{
    proof {
        reveal_strlit("/");
    }
    let is_root = path.unicode_len() == 1 && path.get_char(0) == '/';
    assert(is_root == (path@ =~= "/"@));
    match method {
        Method::Get => match parse_badge_path(path) {
            Some(id) => Route::Badge(id),
            None => Route::NotFound,
        },
        Method::Put => if is_root {
            Route::Update
        } else {
            Route::NotFound
        },
        Method::Delete => if is_root {
            Route::Clear
        } else {
            Route::NotFound
        },
        Method::Other => Route::NotFound,
    }
}

/// Whether a route needs the bearer token resolved before it goes anywhere.
pub fn needs_authorization(route: &Route) -> (r: bool)
    ensures
        r == (route is Update || route is Clear),
{
    match route {
        Route::Update | Route::Clear => true,
        _ => false,
    }
}

/// Where a routed request goes: to the cell of an identity, or straight to a
/// status code.
#[derive(Debug, PartialEq, Eq)]
pub enum Target {
    Cell(String),
    Status(u16),
}

/// The target of a routed request, given the outcome of authorization when
/// the route needed it. A read goes to the cell named in its path; a write
/// goes to the cell of the resolved identity and nowhere else, and without
/// one it is refused.
pub fn target_of(route: Route, authorized: Option<Result<String, AuthError>>) -> (r: Target)
    ensures
        match route {
            Route::Badge(id) => r is Cell && r->Cell_0@ == id@,
            Route::Update | Route::Clear => match authorized {
                Some(Ok(id)) => r is Cell && r->Cell_0@ == id@,
                _ => r == Target::Status(STATUS_UNAUTHORIZED),
            },
            Route::NotFound => r == Target::Status(STATUS_NOT_FOUND),
        },
{
    match route {
        Route::Badge(id) => Target::Cell(id),
        Route::Update | Route::Clear => match authorized {
            Some(Ok(id)) => Target::Cell(id),
            _ => Target::Status(STATUS_UNAUTHORIZED),
        },
        Route::NotFound => Target::Status(STATUS_NOT_FOUND),
    }
}

/// A write to the cell of the authorized identity.
pub enum Write {
    Upsert(Activity),
    Clear,
}

/// Why a write was not carried out.
#[derive(Debug, PartialEq, Eq, Structural, Clone, Copy)]
pub enum WriteError {
    Unauthorized,
    Invalid(ActivityError),
}

/// Carries out a write for the identity that authorization produced, and for
/// no other: without an identity nothing changes.
pub fn handle_write(users: &mut Users, authorized: &Result<String, AuthError>, write: Write) -> (r:
    Result<(), WriteError>)
    requires
        old(users).wf(),
    ensures
        final(users).wf(),
        match authorized {
            Err(_) => r == Err::<(), WriteError>(WriteError::Unauthorized) && forall|k: Seq<char>|
                #[trigger] final(users).record(k) == old(users).record(k),
            Ok(id) => match write {
                Write::Upsert(a) => (r is Ok <==> is_valid_activity(a@)) && (r is Err ==> r
                    == Err::<(), WriteError>(WriteError::Invalid(ActivityError::EmptyName)))
                    && forall|k: Seq<char>|
                    #[trigger] final(users).record(k) == if k == id@ {
                        after_update(old(users).record(k), a@)
                    } else {
                        old(users).record(k)
                    },
                Write::Clear => r is Ok && forall|k: Seq<char>|
                    #[trigger] final(users).record(k) == if k == id@ {
                        None
                    } else {
                        old(users).record(k)
                    },
            },
        },
{
    match authorized {
        Err(_) => Err(WriteError::Unauthorized),
        Ok(id) => match write {
            Write::Upsert(a) => match users.update_activity(id, a) {
                Ok(()) => Ok(()),
                Err(e) => Err(WriteError::Invalid(e)),
            },
            Write::Clear => {
                users.delete_activity(id);
                Ok(())
            },
        },
    }
}

/// The status code that answers a write.
pub fn write_status(r: &Result<(), WriteError>) -> (s: u16)
    ensures
        s == match r {
            Ok(()) => STATUS_NO_CONTENT,
            Err(WriteError::Unauthorized) => STATUS_UNAUTHORIZED,
            Err(WriteError::Invalid(_)) => STATUS_BAD_REQUEST,
        },
{
    match r {
        Ok(()) => STATUS_NO_CONTENT,
        Err(WriteError::Unauthorized) => STATUS_UNAUTHORIZED,
        Err(WriteError::Invalid(_)) => STATUS_BAD_REQUEST,
    }
}

} // verus!
