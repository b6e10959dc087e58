use vstd::prelude::*;

use std::sync::{Arc, Mutex};

verus! {

#[verifier::external_type_specification]
#[verifier::external_body]
#[verifier::reject_recursive_types(T)]
pub struct ExMutex<T: ?Sized>(std::sync::Mutex<T>);

/// Relies on std::sync::Mutex::new, which wraps the value in an unlocked mutex.
pub assume_specification<T>[ std::sync::Mutex::<T>::new ](t: T) -> std::sync::Mutex<T>;

/// The demo's shared counters: three zeros behind a mutex.
pub fn get_base_state() -> (r: Arc<Mutex<Vec<i32>>>) {
    let counters: Vec<i32> = vec![0, 0, 0];
    Arc::new(Mutex::new(counters))
}

/// The demo's application state.
#[derive(Clone, Debug)]
pub struct HelloAppState {
    pub auth_token: String,
    pub current_users: i32,
}

/// The demo's initial application state.
pub fn get_hello_app_state() -> (r: HelloAppState)
    ensures
        r.auth_token@ == seq!['a', 'u', 't', 'h', '_', 't', 'o', 'k', 'e', 'n'],
        r.current_users == 3,
{
    proof {
        reveal_strlit("auth_token");
    }
    HelloAppState { auth_token: "auth_token".to_owned(), current_users: 3 }
}

} // verus!
