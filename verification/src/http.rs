//! What the HTTP layer of the dictionary server decides: who may call it,
//! and how a refusal and a success are answered.
use vstd::prelude::*;
use crate::error::DictionaryError;
use crate::model::DictionaryErrorResponse;

verus! {

/// Status of a malformed or refused request.
pub const BAD_REQUEST: u16 = 400;

/// Status of a request without a valid session.
pub const UNAUTHORIZED: u16 = 401;

/// Status of a request whose session lacks the permission.
pub const FORBIDDEN: u16 = 403;

/// The permission every dictionary endpoint asks for.
pub open spec fn manage_permission_text() -> Seq<char> {
    "dictionary:manage"@
}

/// The permission every dictionary endpoint asks for.
pub fn manage_permission() -> (p: String)
    ensures
        p@ == manage_permission_text(),
{
    String::from_str("dictionary:manage")
}

/// The session the host established for a request: its tenant and the
/// permissions of its role.
#[derive(Debug, Clone, PartialEq, Eq)]
pub struct Session {
    pub tenant_id: String,
    pub permissions: Vec<String>,
}

/// A refused request: the status it is answered with and the message shown.
#[derive(Debug, Clone, PartialEq, Eq)]
pub struct DictionaryHttpError {
    pub status: u16,
    pub message: String,
}

/// `permissions` holds `permission`.
pub open spec fn grants(permissions: Seq<String>, permission: Seq<char>) -> bool {
    exists|i: int| 0 <= i < permissions.len() && #[trigger] permissions[i]@ == permission
}

/// Whether `permissions` holds `permission`.
pub fn holds_permission(permissions: &Vec<String>, permission: &String) -> (r: bool)
    ensures
        r == grants(permissions@, permission@),
{
    let mut i: usize = 0;
    while i < permissions.len()
        invariant
            i <= permissions@.len(),
            forall|k: int| 0 <= k < i ==> #[trigger] permissions@[k]@ != permission@,
        decreases permissions@.len() - i,
    {
        if permissions[i] == *permission {
            return true;
        }
        i = i + 1;
    }
    false
}

impl DictionaryHttpError {
    /// A refusal with this status and message.
    pub fn new(status: u16, message: String) -> (e: DictionaryHttpError)
        ensures
            e.status == status,
            e.message == message,
    {
        DictionaryHttpError { status, message }
    }

    /// Any failure of the service is answered as a bad request that carries
    /// the failure's message.
    pub fn bad_request(message: String) -> (e: DictionaryHttpError)
        ensures
            e.status == BAD_REQUEST,
            e.message == message,
    {
        DictionaryHttpError { status: BAD_REQUEST, message }
    }

    /// A refusal of the service, answered as a bad request.
    pub fn from_service_error(error: DictionaryError) -> (e: DictionaryHttpError)
        ensures
            e.status == BAD_REQUEST,
            e.message@ == error.message_text(),
    {
        DictionaryHttpError { status: BAD_REQUEST, message: error.message() }
    }

    /// The status and the body that answer this refusal.
    pub fn into_response_parts(self) -> (r: (u16, DictionaryErrorResponse))
        ensures
            r.0 == self.status,
            r.1.error == self.message,
    {
        (self.status, DictionaryErrorResponse { error: self.message })
    }
}

/// Admits a request when its session is valid and grants the dictionary
/// permission; the session then supplies the tenant.
pub fn authorize(session: Option<Session>) -> (r: Result<Session, DictionaryHttpError>)
    ensures
        match session {
            None => r matches Err(e) && e.status == UNAUTHORIZED && e.message@ == "会话无效或已过期"@,
            Some(s) => if grants(s.permissions@, manage_permission_text()) {
                r == Ok::<Session, DictionaryHttpError>(s)
            } else {
                r matches Err(e) && e.status == FORBIDDEN && e.message@
                    == "当前角色没有字典管理权限"@
            },
        },
{
    match session {
        None => Err(DictionaryHttpError::new(UNAUTHORIZED, String::from_str("会话无效或已过期"))),
        Some(s) => {
            if holds_permission(&s.permissions, &manage_permission()) {
                Ok(s)
            } else {
                Err(
                    DictionaryHttpError::new(
                        FORBIDDEN,
                        String::from_str("当前角色没有字典管理权限"),
                    ),
                )
            }
        },
    }
}

/// The endpoints of the dictionary server.
#[derive(Debug, Clone, Copy, PartialEq, Eq, Structural)]
pub enum DictionaryEndpoint {
    Health,
    View,
    CreateType,
    UpdateType,
    DeleteType,
    CreateItem,
    UpdateItem,
    DeleteItem,
}

impl DictionaryEndpoint {
    /// Status of a successful answer: creations answer 201, deletions 204 with
    /// no body, the others 200.
    pub open spec fn success_status_of(self) -> u16 {
        match self {
            DictionaryEndpoint::CreateType | DictionaryEndpoint::CreateItem => 201,
            DictionaryEndpoint::DeleteType | DictionaryEndpoint::DeleteItem => 204,
            _ => 200,
        }
    }

    /// Status of a successful answer.
    pub fn success_status(&self) -> (s: u16)
        ensures
            s == self.success_status_of(),
    {
        match self {
            DictionaryEndpoint::CreateType | DictionaryEndpoint::CreateItem => 201,
            DictionaryEndpoint::DeleteType | DictionaryEndpoint::DeleteItem => 204,
            _ => 200,
        }
    }
}

} // verus!
