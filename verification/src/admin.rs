//! The configurator of a module: whoever configures it first.

use crate::address::Address;
use vstd::prelude::*;

verus! {

/// Whether `caller` may configure a module whose recorded admin is `admin`:
/// the recorded admin may, and anyone may while none is recorded.
pub open spec fn authorized(admin: Option<Address>, caller: Address) -> bool {
    admin is None || admin == Some(caller)
}

/// The recorded admin after `caller` asked to configure the module, and
/// whether the request is let through. The first to ask is recorded; a
/// request that is turned down records nothing.
pub open spec fn authorize_step(admin: Option<Address>, caller: Address) -> (Option<Address>, bool) {
    if admin is None {
        (Some(caller), true)
    } else {
        (admin, admin == Some(caller))
    }
}

/// The admin of one module, unset until the first admin-gated call.
#[derive(Clone, Copy, Debug)]
pub struct AdminMarker {
    admin: Option<Address>,
}

impl View for AdminMarker {
    type V = Option<Address>;

    closed spec fn view(&self) -> Option<Address> {
        self.admin
    }
}

impl AdminMarker {
    /// A marker that records `admin`.
    pub fn restore(admin: Option<Address>) -> (marker: AdminMarker)
        ensures
            marker@ == admin,
    {
        AdminMarker { admin }
    }

    /// The recorded admin.
    pub fn get(&self) -> (admin: Option<Address>)
        ensures
            admin == self@,
    {
        self.admin
    }

    /// Lets `caller` through if it is the admin, recording it as the admin
    /// where none was recorded.
    pub fn assert_admin(&mut self, caller: &Address) -> (allowed: bool)
        ensures
            (final(self)@, allowed) == authorize_step(old(self)@, *caller),
            allowed == authorized(old(self)@, *caller),
    {
        match self.admin {
            None => {
                self.admin = Some(*caller);
                true
            },
            Some(admin) => admin.same_as(caller),
        }
    }
}

/// With no admin recorded, the first caller is let through and becomes the
/// admin; any other caller is turned down afterwards, and the admin stays.
pub proof fn lemma_first_caller_becomes_admin(first: Address, other: Address)
    requires
        first != other,
    ensures
        ({
            let (admin1, allowed1) = authorize_step(None, first);
            let (admin2, allowed2) = authorize_step(admin1, other);
            &&& allowed1
            &&& admin1 == Some(first)
            &&& !allowed2
            &&& admin2 == Some(first)
        }),
{
}

/// Once an admin is recorded, no request changes it.
pub proof fn lemma_admin_never_changes(admin: Address, caller: Address)
    ensures
        authorize_step(Some(admin), caller).0 == Some(admin),
        authorize_step(Some(admin), caller).1 == (caller == admin),
{
}

} // verus!
