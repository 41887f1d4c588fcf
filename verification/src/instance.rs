pub mod read;
pub mod write;

use crate::class::{arc_clone, Class};
use crate::error::Error;
use crate::instance::read::InstanceReadGuard;
use crate::instance::write::InstanceWriteGuard;
use std::sync::Arc;
use vstd::prelude::*;
use vstd::rwlock::{RwLock, RwLockPredicate};

verus! {

/// The lock predicate of an instance: whatever is stored in the lock is
/// a buffer of exactly the instance class's size.
pub struct InstancePred {
    pub class: Arc<Class>,
}

impl RwLockPredicate<Vec<u8>> for InstancePred {
    open spec fn inv(self, v: Vec<u8>) -> bool {
        v@.len() == (*self.class).spec_size()
    }
}

/// One owned allocation conforming to a class's layout, constructed at
/// creation and guarded by a single reader-writer lock for its whole
/// life. Multiple read guards may coexist; a write guard is exclusive.
pub struct Instance {
    class: Arc<Class>,
    data: RwLock<Vec<u8>, InstancePred>,
}

impl Instance {
    /// The class this instance was allocated for.
    pub closed spec fn spec_class(&self) -> Class {
        *self.class
    }

    /// The reader-writer lock guarding this instance's bytes.
    pub closed spec fn spec_lock(&self) -> RwLock<Vec<u8>, InstancePred> {
        self.data
    }

    /// The instance's class is consistent and the lock's invariant pins
    /// every stored buffer to that class's size.
    pub closed spec fn wf(&self) -> bool {
        &&& (*self.class).wf()
        &&& *self.data.pred().class == *self.class
    }


    /// Allocates a buffer of the class's size, constructs every field's
    /// default in it, and stores it behind a fresh reader-writer lock.
    pub fn new(class: Arc<Class>) -> (instance: Instance)
        requires
            (*class).wf(),
        ensures
            instance.wf(),
            instance.spec_class() == *class,
    {
        let buffer = class.construct();
        let pred_class = arc_clone(&class);
        let data = RwLock::new(buffer, Ghost(InstancePred { class: pred_class }));
        Instance { class, data }
    }

    /// Acquires the shared read lock. With verified lock discipline the
    /// lock can never be poisoned, so this always succeeds.
    pub fn read(&self) -> (r: Result<InstanceReadGuard<'_>, Error>)
        requires
            self.wf(),
        ensures
            r is Ok,
            r matches Ok(guard) ==> guard.wf() && guard.spec_class() == self.spec_class()
                && guard.lock() == self.spec_lock(),
    {
        InstanceReadGuard::acquire(self)
    }

    /// Acquires the exclusive write lock. With verified lock discipline
    /// the lock can never be poisoned, so this always succeeds.
    pub fn write(&self) -> (r: Result<InstanceWriteGuard<'_>, Error>)
        requires
            self.wf(),
        ensures
            r is Ok,
            r matches Ok(guard) ==> guard.wf() && guard.spec_class() == self.spec_class(),
    {
        InstanceWriteGuard::acquire(self)
    }
}

} // verus!
