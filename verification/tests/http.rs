use aio_plugin_dictionary::error::DictionaryError;
use aio_plugin_dictionary::http::{
    authorize, manage_permission, DictionaryEndpoint, DictionaryHttpError, Session,
};

fn session(permissions: &[&str]) -> Session {
    Session {
        tenant_id: "tenant-a".to_owned(),
        permissions: permissions.iter().map(|p| p.to_string()).collect(),
    }
}

#[test]
fn missing_session_is_unauthorized() {
    let e = authorize(None).unwrap_err();
    assert_eq!(e.status, 401);
    assert_eq!(e.message, "会话无效或已过期");
}

#[test]
fn session_without_permission_is_forbidden() {
    let e = authorize(Some(session(&["user:read", "dictionary:read"]))).unwrap_err();
    assert_eq!(e.status, 403);
    assert_eq!(e.message, "当前角色没有字典管理权限");
    assert_eq!(authorize(Some(session(&[]))).unwrap_err().status, 403);
}

#[test]
fn session_with_permission_keeps_its_tenant() {
    let s = authorize(Some(session(&["user:read", "dictionary:manage"]))).unwrap();
    assert_eq!(s.tenant_id, "tenant-a");
    assert_eq!(manage_permission(), "dictionary:manage");
}

#[test]
fn service_errors_are_bad_requests() {
    let e = DictionaryHttpError::from_service_error(DictionaryError::ItemNotFound);
    assert_eq!(e.status, 400);
    assert_eq!(e.message, "字典项不存在或不属于当前租户");
    let (status, body) = e.into_response_parts();
    assert_eq!(status, 400);
    assert_eq!(body.error, "字典项不存在或不属于当前租户");
    let e = DictionaryHttpError::bad_request("创建字典类型失败: duplicate key".to_owned());
    assert_eq!(e.status, 400);
    let e = DictionaryHttpError::new(418, "x".to_owned());
    assert_eq!((e.status, e.message.as_str()), (418, "x"));
}

#[test]
fn success_statuses() {
    assert_eq!(DictionaryEndpoint::Health.success_status(), 200);
    assert_eq!(DictionaryEndpoint::View.success_status(), 200);
    assert_eq!(DictionaryEndpoint::CreateType.success_status(), 201);
    assert_eq!(DictionaryEndpoint::UpdateType.success_status(), 200);
    assert_eq!(DictionaryEndpoint::DeleteType.success_status(), 204);
    assert_eq!(DictionaryEndpoint::CreateItem.success_status(), 201);
    assert_eq!(DictionaryEndpoint::UpdateItem.success_status(), 200);
    assert_eq!(DictionaryEndpoint::DeleteItem.success_status(), 204);
}
