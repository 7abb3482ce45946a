use std::rc::Rc;
use vstd::prelude::*;

verus! {

/// A numeric identifier for a user. Zero and negative values are the
/// sentinel for "unset/invalid" and are never real identifiers.
pub type UserId = i64;

/// A user record: an identifier, a name, and an optional email address.
pub struct User {
    pub id: UserId,
    pub name: String,
    pub email: Option<String>,
}

impl User {
    /// Builds a user with the given identifier and name, and no email.
    pub fn new(id: UserId, name: String) -> (r: Self)
        ensures
            r.id == id,
            r.name == name,
            r.email is None,
    {
        User { id, name, email: None }
    }
}

impl From<String> for User {
    /// A user made from a name alone carries the unset identifier and
    /// no email address.
    fn from(name: String) -> (r: Self) {
        User { id: 0, name, email: None }
    }
}

impl vstd::std_specs::convert::FromSpecImpl<String> for User {
    open spec fn obeys_from_spec() -> bool {
        true
    }

    open spec fn from_spec(name: String) -> User {
        User { id: 0, name, email: None }
    }
}

/// Wraps a user in a shared reference-counted pointer.
pub fn share_user(user: User) -> (r: Rc<User>)
    ensures
        r == user,
{
    Rc::new(user)
}

/// The identifiers of `ids` that are strictly positive, in order.
pub open spec fn positive_ids(ids: Seq<UserId>) -> Seq<UserId>
    decreases ids.len(),
{
    if ids.len() == 0 {
        ids
    } else {
        let rest = positive_ids(ids.drop_last());
        if ids.last() > 0 {
            rest.push(ids.last())
        } else {
            rest
        }
    }
}

/// The identifier of each user of `users`, in order.
pub open spec fn user_ids(users: Seq<User>) -> Seq<UserId> {
    users.map_values(|u: User| u.id)
}

/// The identifiers collected from `users`: each user's identifier,
/// keeping only the strictly positive ones, in input order.
pub open spec fn collected_ids(users: Seq<User>) -> Seq<UserId> {
    positive_ids(user_ids(users))
}

/// Projects each user to its identifier and keeps only the strictly
/// positive ones, preserving input order. Zero and negative identifiers
/// are the "unset/invalid" sentinel and are silently dropped.
pub fn collect_ids(users: &[User]) -> (r: Vec<UserId>)
    ensures
        r@ == collected_ids(users@),
{
    let mut r: Vec<UserId> = Vec::new();
    let mut i: usize = 0;
    while i < users.len()
        invariant
            i <= users.len(),
            r@ == positive_ids(user_ids(users@.subrange(0, i as int))),
        decreases users.len() - i,
    {
        let id = users[i].id;
        proof {
            let pre = user_ids(users@.subrange(0, i as int));
            let post = user_ids(users@.subrange(0, i + 1 as int));
            assert(post.drop_last() =~= pre);
            assert(post.last() == id);
        }
        if id > 0 {
            r.push(id);
        }
        i += 1;
    }
    proof {
        assert(users@.subrange(0, users@.len() as int) =~= users@);
    }
    r
}

/// Every identifier that the collection keeps is strictly positive.
pub proof fn lemma_positive_ids_all_positive(ids: Seq<UserId>)
    ensures
        forall|j: int| 0 <= j < positive_ids(ids).len() ==> positive_ids(ids)[j] > 0,
    decreases ids.len(),
{
    if ids.len() > 0 {
        lemma_positive_ids_all_positive(ids.drop_last());
        let rest = positive_ids(ids.drop_last());
        assert forall|j: int| 0 <= j < positive_ids(ids).len() implies positive_ids(ids)[j]
            > 0 by {
            if ids.last() > 0 {
                assert(positive_ids(ids) == rest.push(ids.last()));
                if j < rest.len() {
                    assert(positive_ids(ids)[j] == rest[j]);
                } else {
                    assert(positive_ids(ids)[j] == ids.last());
                }
            } else {
                assert(positive_ids(ids) == rest);
            }
        }
    }
}

/// On a sequence of identifiers that are already all strictly positive,
/// collecting keeps every identifier, in place.
pub proof fn lemma_positive_ids_identity(ids: Seq<UserId>)
    requires
        forall|j: int| 0 <= j < ids.len() ==> ids[j] > 0,
    ensures
        positive_ids(ids) == ids,
    decreases ids.len(),
{
    if ids.len() > 0 {
        lemma_positive_ids_identity(ids.drop_last());
        assert(positive_ids(ids) =~= ids);
    } else {
        assert(positive_ids(ids) =~= ids);
    }
}

/// Idempotence: the collected identifiers are a fixed point of the
/// filter, since every identifier that remains is already positive.
pub proof fn lemma_collect_fixed_point(users: Seq<User>)
    ensures
        positive_ids(collected_ids(users)) == collected_ids(users),
{
    lemma_positive_ids_all_positive(user_ids(users));
    lemma_positive_ids_identity(collected_ids(users));
}

/// The user-management subsystem as a whole; a marker with no state of
/// its own, since every operation here is a pure function.
pub struct UserSystem;

/// Backing storage for user records; an implementor chooses its own
/// error type.
pub trait Storage {
    type Error;

    fn store(&self, user: &User) -> Result<(), Self::Error>;
}

} // verus!
