//! The delegation registry: which users have delegated their vault position
//! to the agent, which protocols the admin has whitelisted for the agent, and
//! who the admin and the agent are.

use vstd::prelude::*;

use crate::address::Address;
use crate::table::Table;

verus! {

/// Why the registry refused a call.
#[derive(Debug, Clone, Copy, PartialEq, Eq, Structural)]
pub enum AuthError {
    /// The admin and the agent were already set.
    AlreadyInitialized,
    /// The admin and the agent are not set yet.
    NotInitialized,
    /// The caller is not the admin.
    NotAdmin,
    /// The caller is not the delegated agent.
    NotAgent,
}

impl AuthError {
    /// The text of the message with which the contract aborts.
    pub open spec fn text(self) -> Seq<char> {
        match self {
            AuthError::AlreadyInitialized => "already initialized"@,
            AuthError::NotInitialized => "not initialized"@,
            AuthError::NotAdmin => "not admin"@,
            AuthError::NotAgent => "caller is not the delegated agent"@,
        }
    }

    /// The message with which the contract aborts.
    pub fn message(&self) -> (s: &'static str)
        ensures
            s@ == self.text(),
    {
        match self {
            AuthError::AlreadyInitialized => "already initialized",
            AuthError::NotInitialized => "not initialized",
            AuthError::NotAdmin => "not admin",
            AuthError::NotAgent => "caller is not the delegated agent",
        }
    }
}

/// The registry's storage as plain values.
pub struct AuthView {
    /// The admin and the agent, once set.
    pub roles: Option<(Seq<u8>, Seq<u8>)>,
    /// The users' delegation flags.
    pub authorized: Map<Seq<u8>, bool>,
    /// The protocols' whitelist flags.
    pub protocols: Map<Seq<u8>, bool>,
}

/// Delegating makes a user authorized; revoking, even right after, makes
/// them unauthorized again and leaves the registry as revoking alone would.
pub proof fn law_revoke_undoes_authorize(s: AuthView, user: Seq<u8>)
    ensures
        is_authorized_spec(authorize_spec(s, user), user),
        !is_authorized_spec(revoke_spec(s, user), user),
        revoke_spec(authorize_spec(s, user), user) == revoke_spec(s, user),
{
    assert(s.authorized.insert(user, true).remove(user) =~= s.authorized.remove(user));
}

/// A user's delegation or revocation changes no other user's delegation and
/// neither the roles nor the whitelist.
pub proof fn law_delegation_is_per_user(s: AuthView, user: Seq<u8>, other: Seq<u8>)
    requires
        user != other,
    ensures
        is_authorized_spec(authorize_spec(s, user), other) == is_authorized_spec(s, other),
        is_authorized_spec(revoke_spec(s, user), other) == is_authorized_spec(s, other),
        authorize_spec(s, user).roles == s.roles && authorize_spec(s, user).protocols
            == s.protocols,
        revoke_spec(s, user).roles == s.roles && revoke_spec(s, user).protocols == s.protocols,
{
}

/// Whitelisting makes a protocol whitelisted; removing it, even right after,
/// makes it not whitelisted and leaves the registry as removing alone would.
pub proof fn law_remove_protocol_undoes_add(s: AuthView, protocol: Seq<u8>)
    ensures
        is_whitelisted_spec(add_protocol_spec(s, protocol), protocol),
        !is_whitelisted_spec(remove_protocol_spec(s, protocol), protocol),
        remove_protocol_spec(add_protocol_spec(s, protocol), protocol) == remove_protocol_spec(
            s,
            protocol,
        ),
{
    assert(s.protocols.insert(protocol, true).remove(protocol) =~= s.protocols.remove(protocol));
}

/// The whitelist is kept per protocol: adding or removing one protocol
/// changes no other protocol's status, nor the roles or the delegations.
pub proof fn law_whitelist_is_per_protocol(s: AuthView, protocol: Seq<u8>, other: Seq<u8>)
    requires
        protocol != other,
    ensures
        is_whitelisted_spec(add_protocol_spec(s, protocol), other) == is_whitelisted_spec(s, other),
        is_whitelisted_spec(remove_protocol_spec(s, protocol), other) == is_whitelisted_spec(
            s,
            other,
        ),
        add_protocol_spec(s, protocol).roles == s.roles && add_protocol_spec(s, protocol).authorized
            == s.authorized,
        remove_protocol_spec(s, protocol).roles == s.roles && remove_protocol_spec(
            s,
            protocol,
        ).authorized == s.authorized,
{
}

/// Only the admin may change the whitelist, and the agent check accepts
/// exactly the configured agent.
pub proof fn law_roles_gate_access(s: AuthView, caller: Seq<u8>)
    ensures
        (require_admin_spec(s, caller) is Ok) <==> (s.roles matches Some((admin, _)) && caller == admin),
        (assert_is_agent_spec(s, caller) is Ok) <==> (s.roles matches Some((_, agent)) && caller == agent),
{
}

/// The delegation registry.
pub struct Auth {
    roles: Option<(Address, Address)>,
    authorized: Table<Address, bool>,
    protocols: Table<Address, bool>,
}

impl View for Auth {
    type V = AuthView;

    closed spec fn view(&self) -> AuthView {
        AuthView {
            roles: match self.roles {
                Some((admin, agent)) => Some((admin@, agent@)),
                None => None,
            },
            authorized: self.authorized@,
            protocols: self.protocols@,
        }
    }
}

/// Whether `user` has delegated to the agent in state `s`.
pub open spec fn is_authorized_spec(s: AuthView, user: Seq<u8>) -> bool {
    s.authorized.contains_key(user) && s.authorized[user]
}

/// Whether `protocol` is whitelisted in state `s`.
pub open spec fn is_whitelisted_spec(s: AuthView, protocol: Seq<u8>) -> bool {
    s.protocols.contains_key(protocol) && s.protocols[protocol]
}

/// The state after `user` delegates to the agent.
pub open spec fn authorize_spec(s: AuthView, user: Seq<u8>) -> AuthView {
    AuthView { authorized: s.authorized.insert(user, true), ..s }
}

/// The state after `user` revokes the delegation.
pub open spec fn revoke_spec(s: AuthView, user: Seq<u8>) -> AuthView {
    AuthView { authorized: s.authorized.remove(user), ..s }
}

/// The admin's check: who may change the whitelist.
pub open spec fn require_admin_spec(s: AuthView, caller: Seq<u8>) -> Result<(), AuthError> {
    match s.roles {
        None => Err(AuthError::NotInitialized),
        Some((admin, _)) => if caller == admin {
            Ok(())
        } else {
            Err(AuthError::NotAdmin)
        },
    }
}

/// The state after the admin whitelists `protocol`.
pub open spec fn add_protocol_spec(s: AuthView, protocol: Seq<u8>) -> AuthView {
    AuthView { protocols: s.protocols.insert(protocol, true), ..s }
}

/// The state after the admin removes `protocol` from the whitelist.
pub open spec fn remove_protocol_spec(s: AuthView, protocol: Seq<u8>) -> AuthView {
    AuthView { protocols: s.protocols.remove(protocol), ..s }
}

/// Whether `caller` is the delegated agent in state `s`.
pub open spec fn assert_is_agent_spec(s: AuthView, caller: Seq<u8>) -> Result<(), AuthError> {
    match s.roles {
        None => Err(AuthError::NotInitialized),
        Some((_, agent)) => if caller == agent {
            Ok(())
        } else {
            Err(AuthError::NotAgent)
        },
    }
}

impl Auth {
    /// The tables are well formed.
    pub closed spec fn wf(&self) -> bool {
        self.authorized.wf() && self.protocols.wf()
    }

    /// A registry with no roles, no delegations and an empty whitelist.
    pub fn new() -> (a: Self)
        ensures
            a.wf(),
            (a@.roles is None),
            a@.authorized == Map::<Seq<u8>, bool>::empty(),
            a@.protocols == Map::<Seq<u8>, bool>::empty(),
    {
        Auth { roles: None, authorized: Table::new(), protocols: Table::new() }
    }

    /// Set the admin and the agent, once.
    pub fn initialize(&mut self, admin: Address, agent: Address) -> (r: Result<(), AuthError>)
        requires
            old(self).wf(),
        ensures
            final(self).wf(),
            (old(self)@.roles is Some) ==> r == Err::<(), AuthError>(AuthError::AlreadyInitialized)
                && final(self)@ == old(self)@,
            (old(self)@.roles is None) ==> (r is Ok) && final(self)@ == (AuthView {
                roles: Some((admin@, agent@)),
                ..old(self)@
            }),
    {
        if self.roles.is_some() {
            return Err(AuthError::AlreadyInitialized);
        }
        self.roles = Some((admin, agent));
        Ok(())
    }

    /// Load the stored admin and agent into the state.
    pub fn load_roles(&mut self, admin: Address, agent: Address)
        requires
            old(self).wf(),
        ensures
            final(self).wf(),
            final(self)@ == (AuthView { roles: Some((admin@, agent@)), ..old(self)@ }),
    {
        self.roles = Some((admin, agent));
    }

    /// Load a stored whitelist entry into the state.
    pub fn load_protocol(&mut self, protocol: &Address)
        requires
            old(self).wf(),
        ensures
            final(self).wf(),
            final(self)@ == add_protocol_spec(old(self)@, protocol@),
    {
        self.protocols.set(protocol, true);
    }

    /// `user` delegates their position to the agent.
    pub fn authorize(&mut self, user: &Address)
        requires
            old(self).wf(),
        ensures
            final(self).wf(),
            final(self)@ == authorize_spec(old(self)@, user@),
    {
        self.authorized.set(user, true);
    }

    /// `user` withdraws the delegation.
    pub fn revoke(&mut self, user: &Address)
        requires
            old(self).wf(),
        ensures
            final(self).wf(),
            final(self)@ == revoke_spec(old(self)@, user@),
    {
        self.authorized.remove(user);
    }

    /// Whether `user` has delegated to the agent.
    pub fn is_authorized(&self, user: &Address) -> (r: bool)
        requires
            self.wf(),
        ensures
            r == is_authorized_spec(self@, user@),
    {
        self.authorized.get_or(user, false)
    }

    /// Check that `admin` is the registry's admin.
    fn require_admin(&self, admin: &Address) -> (r: Result<(), AuthError>)
        ensures
            r == require_admin_spec(self@, admin@),
    {
        match &self.roles {
            None => Err(AuthError::NotInitialized),
            Some((stored, _)) => if admin.same(stored) {
                Ok(())
            } else {
                Err(AuthError::NotAdmin)
            },
        }
    }

    /// The admin whitelists `protocol` for the agent.
    pub fn add_protocol(&mut self, admin: &Address, protocol: &Address) -> (r: Result<(), AuthError>)
        requires
            old(self).wf(),
        ensures
            final(self).wf(),
            r == require_admin_spec(old(self)@, admin@),
            (r is Ok) ==> final(self)@ == add_protocol_spec(old(self)@, protocol@),
            (r is Err) ==> final(self)@ == old(self)@,
    {
        self.require_admin(admin)?;
        self.protocols.set(protocol, true);
        Ok(())
    }

    /// The admin removes `protocol` from the whitelist.
    pub fn remove_protocol(&mut self, admin: &Address, protocol: &Address) -> (r: Result<(), AuthError>)
        requires
            old(self).wf(),
        ensures
            final(self).wf(),
            r == require_admin_spec(old(self)@, admin@),
            (r is Ok) ==> final(self)@ == remove_protocol_spec(old(self)@, protocol@),
            (r is Err) ==> final(self)@ == old(self)@,
    {
        self.require_admin(admin)?;
        self.protocols.remove(protocol);
        Ok(())
    }

    /// Whether `protocol` is whitelisted.
    pub fn is_protocol_whitelisted(&self, protocol: &Address) -> (r: bool)
        requires
            self.wf(),
        ensures
            r == is_whitelisted_spec(self@, protocol@),
    {
        self.protocols.get_or(protocol, false)
    }

    /// Check that `caller` is the delegated agent.
    pub fn assert_is_agent(&self, caller: &Address) -> (r: Result<(), AuthError>)
        ensures
            r == assert_is_agent_spec(self@, caller@),
    {
        match &self.roles {
            None => Err(AuthError::NotInitialized),
            Some((_, agent)) => if caller.same(agent) {
                Ok(())
            } else {
                Err(AuthError::NotAgent)
            },
        }
    }

    /// The delegated agent.
    pub fn agent(&self) -> (r: Result<Address, AuthError>)
        ensures
            match self@.roles {
                None => r == Err::<Address, AuthError>(AuthError::NotInitialized),
                Some((_, agent)) => (r is Ok) && r->Ok_0@ == agent,
            },
    {
        match &self.roles {
            None => Err(AuthError::NotInitialized),
            Some((_, agent)) => Ok(agent.clone()),
        }
    }

    /// The admin.
    pub fn admin(&self) -> (r: Result<Address, AuthError>)
        ensures
            match self@.roles {
                None => r == Err::<Address, AuthError>(AuthError::NotInitialized),
                Some((admin, _)) => (r is Ok) && r->Ok_0@ == admin,
            },
    {
        match &self.roles {
            None => Err(AuthError::NotInitialized),
            Some((admin, _)) => Ok(admin.clone()),
        }
    }
}

} // verus!
