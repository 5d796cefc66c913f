//! The role service: finding out who is calling, and making and removing
//! role grants.

use vstd::prelude::*;
use crate::acl::SystemACL;
use crate::connection::Connection;
use crate::errors::RepoError;
use crate::models::role::{clone_grants, RoleEntry, RoleFilter, UserLogin, UserRole};
use crate::repo::{delete_spec, insert_of, insert_spec, select_spec, DbRepo};
use crate::repos::roles::RolesAcl;
use crate::schema::Column;
use crate::services::{last_found, ServiceResult};
use crate::statement::Filter;
use crate::storage::with_rows;
use crate::types::{RoleEntryId, UserId};
use crate::value::{views, RecordView, ValueView};

verus! {

/// How grants are named for removal: by identifier, or by their caller and,
/// if given, their capability.
#[derive(Clone, Copy, Debug, PartialEq, Eq)]
pub enum RoleSearchTerms {
    Id(RoleEntryId),
    Meta((UserId, Option<UserRole>)),
}

impl RoleSearchTerms {
    /// The filter that selects the grants that the terms name.
    pub open spec fn filter(self) -> RoleFilter {
        match self {
            RoleSearchTerms::Id(id) => RoleFilter { id: Some(id), user_id: None, role: None },
            RoleSearchTerms::Meta((user_id, role)) => RoleFilter {
                id: None,
                user_id: Some(user_id),
                role,
            },
        }
    }

    /// The filter that selects the grants that the terms name.
    pub fn into_filter(self) -> (filter: RoleFilter)
        ensures
            filter == self.filter(),
    {
        match self {
            RoleSearchTerms::Id(id) => RoleFilter { id: Some(id), user_id: None, role: None },
            RoleSearchTerms::Meta((user_id, role)) => RoleFilter {
                id: None,
                user_id: Some(user_id),
                role,
            },
        }
    }
}

/// The predicates that select the grants of a caller.
pub open spec fn by_user_id(user_id: UserId) -> RecordView {
    Map::empty().insert(Column::UserId, ValueView::Int(user_id.0))
}

/// Who is calling: an anonymous caller where no identity was given, else
/// the caller with the grants that the relation of role grants holds for the
/// identity at this moment. The grants are read once; what is done for the
/// caller afterwards goes by this snapshot.
pub fn get_login_data(conn: &Connection, caller_id: Option<UserId>) -> (r: ServiceResult<UserLogin>)
    ensures
        match caller_id {
            None => r == Ok::<UserLogin, RepoError>(UserLogin::Anonymous),
            Some(id) => match select_spec::<RoleEntry, SystemACL>(
                crate::repos::roles::TABLE@,
                SystemACL,
                conn.roles@,
                by_user_id(id),
            ) {
                Ok(grants) => r is Ok && r->Ok_0.caller() == Some(id) && r->Ok_0.grants() == grants,
                Err(e) => r is Err && r->Err_0 == e,
            },
        },
{
    match caller_id {
        None => Ok(UserLogin::Anonymous),
        Some(caller_id) => {
            let filter = RoleFilter { id: None, user_id: Some(caller_id), role: None };
            proof {
                assert(filter.predicates() =~= by_user_id(caller_id));
            }
            match crate::repos::roles::make_su_repo().select(&conn.roles, filter) {
                Err(e) => Err(e),
                Ok(caller_roles) => {
                    assert(views(caller_roles@) =~= caller_roles@);
                    Ok(UserLogin::User { caller_id, caller_roles })
                },
            }
        },
    }
}

/// The role service for one caller.
#[derive(Debug)]
pub struct RoleServiceImpl {
    pub user_roles: Vec<RoleEntry>,
}

impl RoleServiceImpl {
    /// The service for the caller `login`.
    pub fn new(login: &UserLogin) -> (service: RoleServiceImpl)
        ensures
            service.user_roles@ == login.grants(),
    {
        match login {
            UserLogin::Anonymous => RoleServiceImpl { user_roles: Vec::new() },
            UserLogin::User { caller_roles, .. } => RoleServiceImpl {
                user_roles: clone_grants(caller_roles),
            },
        }
    }

    /// The policy that guards role grants for the caller.
    pub open spec fn roles_acl(&self) -> RolesAcl<'_> {
        RolesAcl { user_roles: &self.user_roles }
    }

    /// The grants of a caller that this caller may see.
    pub fn get_roles_for_user(&self, conn: &Connection, user_id: UserId) -> (r: ServiceResult<
        Vec<RoleEntry>,
    >)
        ensures
            match select_spec::<RoleEntry, RolesAcl>(
                crate::repos::roles::TABLE@,
                self.roles_acl(),
                conn.roles@,
                by_user_id(user_id),
            ) {
                Ok(grants) => r is Ok && r->Ok_0@ == grants,
                Err(e) => r is Err && r->Err_0 == e,
            },
    {
        let repo = crate::repos::roles::make_repo(&self.user_roles);
        let filter = RoleFilter { id: None, user_id: Some(user_id), role: None };
        proof {
            assert(filter.predicates() =~= by_user_id(user_id));
        }
        match repo.select(&conn.roles, filter) {
            Err(e) => Err(e),
            Ok(found) => {
                assert(views(found@) =~= found@);
                Ok(found)
            },
        }
    }

    /// Makes a grant. `Forbidden`, with nothing changed, unless the caller
    /// is a superadmin.
    pub fn create_role(&self, conn: &mut Connection, item: RoleEntry) -> (r: ServiceResult<RoleEntry>)
        ensures
            final(conn).stocks@ == old(conn).stocks@,
            final(conn).warehouses@ == old(conn).warehouses@,
            final(conn).warehouse_slug_seq@ == old(conn).warehouse_slug_seq@,
            match insert_spec::<RoleEntry, RolesAcl>(
                self.roles_acl(),
                old(conn).roles@,
                insert_of(crate::repos::roles::TABLE@, item),
            ) {
                Ok((rows, grant)) => r == Ok::<RoleEntry, RepoError>(grant) && final(conn).roles@
                    == with_rows(old(conn).roles@, rows),
                Err(e) => r == Err::<RoleEntry, RepoError>(e) && final(conn).roles@ == old(
                    conn,
                ).roles@,
            },
    {
        let repo = crate::repos::roles::make_repo(&self.user_roles);
        repo.insert_exactly_one(&mut conn.roles, item)
    }

    /// Removes the grants that the terms name and returns the last of them.
    /// `Forbidden`, with nothing changed, unless the caller is a superadmin
    /// or the terms name no grant.
    pub fn remove_role(&self, conn: &mut Connection, terms: RoleSearchTerms) -> (r: ServiceResult<
        Option<RoleEntry>,
    >)
        ensures
            final(conn).stocks@ == old(conn).stocks@,
            final(conn).warehouses@ == old(conn).warehouses@,
            final(conn).warehouse_slug_seq@ == old(conn).warehouse_slug_seq@,
            match delete_spec::<RoleEntry, RolesAcl>(
                crate::repos::roles::TABLE@,
                self.roles_acl(),
                old(conn).roles@,
                terms.filter().predicates(),
            ) {
                Ok((rows, removed)) => r == last_found(Ok::<Seq<RoleEntry>, RepoError>(removed))
                    && final(conn).roles@ == with_rows(old(conn).roles@, rows),
                Err(e) => r is Err && r->Err_0 == e && final(conn).roles@ == old(conn).roles@,
            },
    {
        let repo = crate::repos::roles::make_repo(&self.user_roles);
        match repo.delete(&mut conn.roles, terms.into_filter()) {
            Err(e) => Err(e),
            Ok(removed) => {
                let mut removed = removed;
                assert(views(removed@) =~= removed@);
                Ok(removed.pop())
            },
        }
    }

    /// Removes every grant of a caller and returns them.
    pub fn remove_all_roles(&self, conn: &mut Connection, user_id: UserId) -> (r: ServiceResult<
        Vec<RoleEntry>,
    >)
        ensures
            final(conn).stocks@ == old(conn).stocks@,
            final(conn).warehouses@ == old(conn).warehouses@,
            final(conn).warehouse_slug_seq@ == old(conn).warehouse_slug_seq@,
            match delete_spec::<RoleEntry, RolesAcl>(
                crate::repos::roles::TABLE@,
                self.roles_acl(),
                old(conn).roles@,
                by_user_id(user_id),
            ) {
                Ok((rows, removed)) => r is Ok && r->Ok_0@ == removed && final(conn).roles@
                    == with_rows(old(conn).roles@, rows),
                Err(e) => r is Err && r->Err_0 == e && final(conn).roles@ == old(conn).roles@,
            },
    {
        let repo = crate::repos::roles::make_repo(&self.user_roles);
        let filter = RoleFilter { id: None, user_id: Some(user_id), role: None };
        proof {
            assert(filter.predicates() =~= by_user_id(user_id));
        }
        match repo.delete(&mut conn.roles, filter) {
            Err(e) => Err(e),
            Ok(removed) => {
                assert(views(removed@) =~= removed@);
                Ok(removed)
            },
        }
    }
}

} // verus!
