use vstd::prelude::*;

use crate::model::DistributorSession;

verus! {

/// The options of a stored value: its time to live, in seconds.
pub struct StorageSetOptions {
    pub ttl: i32,
}

/// A request to store a value of an application; `scope` is the code of the
/// scope (device or account) in which it is kept.
pub struct SecureStorageSetRequest {
    pub app_id: String,
    pub value: String,
    pub options: Option<StorageSetOptions>,
    pub scope: i32,
    pub key: String,
    pub distributor_session: DistributorSession,
}

/// A request to read a stored value of an application.
pub struct SecureStorageGetRequest {
    pub app_id: String,
    pub scope: i32,
    pub key: String,
    pub distributor_session: DistributorSession,
}

/// A request to remove a stored value of an application.
pub struct SecureStorageRemoveRequest {
    pub app_id: String,
    pub scope: i32,
    pub key: String,
    pub distributor_session: DistributorSession,
}

/// The key of a stored value in the secure storage service.
pub struct Key {
    pub app_id: String,
    pub key: String,
    pub scope: i32,
}

/// How long a stored value lives: seconds and nanoseconds.
pub struct Ttl {
    pub seconds: i64,
    pub nanos: i32,
}

/// A stored value, with its key and its expiry.
pub struct Value {
    pub key: Option<Key>,
    pub value: String,
    pub expiration: Option<Ttl>,
}

/// The secure storage service's request to store a value.
pub struct UpdateValueRequest {
    pub allow_missing: bool,
    pub value: Option<Value>,
}

/// The secure storage service's request to read a value.
pub struct GetValueRequest {
    pub key: Option<Key>,
}

/// The secure storage service's request to remove a value.
pub struct DeleteValueRequest {
    pub key: Option<Key>,
}

/// The value that a read found, if any.
pub struct SecureStorageGetResponse {
    pub value: Option<String>,
}

/// Whether `k` is the key of an application's value under `key` in `scope`.
pub open spec fn key_of(k: Key, app_id: String, key: String, scope: i32) -> bool {
    k.app_id@ == app_id@ && k.key@ == key@ && k.scope == scope
}

/// Whether `v` is the value of `set`, under its key, living for the time to
/// live of its options.
pub open spec fn stores(v: Value, set: SecureStorageSetRequest) -> bool {
    &&& v.value@ == set.value@
    &&& v.key matches Some(k) && key_of(k, set.app_id, set.key, set.scope)
    &&& match set.options {
        Some(o) => v.expiration matches Some(t) && t.seconds == o.ttl && t.nanos == 0,
        None => v.expiration is None,
    }
}

fn make_key(app_id: &String, key: &String, scope: i32) -> (r: Key)
    ensures
        key_of(r, *app_id, *key, scope),
{
    Key { app_id: app_id.clone(), key: key.clone(), scope }
}

/// The distributor's secure storage service.
pub struct DistPSecureStorageService {}

impl DistPSecureStorageService {
    /// The service.
    pub fn new() -> (r: DistPSecureStorageService) {
        DistPSecureStorageService {}
    }

    /// The service's request to store the value of `set`: missing values may
    /// be created, and the value lives for the time to live of its options.
    pub fn update_request(set: &SecureStorageSetRequest) -> (r: UpdateValueRequest)
        ensures
            r.allow_missing,
            r.value matches Some(v) && stores(v, *set),
    {
        let expiration = match &set.options {
            Some(o) => Some(Ttl { seconds: o.ttl as i64, nanos: 0 }),
            None => None,
        };
        UpdateValueRequest {
            allow_missing: true,
            value: Some(
                Value {
                    key: Some(make_key(&set.app_id, &set.key, set.scope)),
                    value: set.value.clone(),
                    expiration,
                },
            ),
        }
    }

    /// The service's request to read the value of `get`.
    pub fn get_request(get: &SecureStorageGetRequest) -> (r: GetValueRequest)
        ensures
            r.key matches Some(k) && key_of(k, get.app_id, get.key, get.scope),
    {
        GetValueRequest { key: Some(make_key(&get.app_id, &get.key, get.scope)) }
    }

    /// The service's request to remove the value of `remove`.
    pub fn delete_request(remove: &SecureStorageRemoveRequest) -> (r: DeleteValueRequest)
        ensures
            r.key matches Some(k) && key_of(k, remove.app_id, remove.key, remove.scope),
    {
        DeleteValueRequest { key: Some(make_key(&remove.app_id, &remove.key, remove.scope)) }
    }

    /// The answer to a read: the text of the value that the service found.
    pub fn get_response(found: Option<Value>) -> (r: SecureStorageGetResponse)
        ensures
            match found {
                Some(v) => r.value == Some(v.value),
                None => r.value is None,
            },
    {
        match found {
            Some(v) => SecureStorageGetResponse { value: Some(v.value) },
            None => SecureStorageGetResponse { value: None },
        }
    }
}

} // verus!
