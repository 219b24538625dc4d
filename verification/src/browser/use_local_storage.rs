use vstd::prelude::*;

verus! {

/// The value a storage-backed state starts from, and whether the default
/// must be written to storage.
pub struct StoredStart<T> {
    pub value: T,
    pub write_default: bool,
}

/// The starting value of a storage-backed state: the stored value when one
/// could be read, else the default, which is then written to storage.
pub fn start_from_storage<T>(stored: Option<T>, default_value: T) -> (start: StoredStart<T>)
    ensures
        match stored {
            Some(v) => start.value == v && !start.write_default,
            None => start.value == default_value && start.write_default,
        },
{
    match stored {
        Some(v) => StoredStart { value: v, write_default: false },
        None => StoredStart { value: default_value, write_default: true },
    }
}

/// The state after setting `value`: it takes the new value only when writing
/// it to storage succeeded, so state and storage never disagree.
pub fn value_after_store<T>(current: T, value: T, written: bool) -> (next: T)
    ensures
        next == if written { value } else { current },
{
    if written {
        value
    } else {
        current
    }
}

} // verus!
