//! The shared application state: the credential indexes built once at
//! startup and treated as immutable afterwards, and the mutable session
//! table.
use vstd::prelude::*;

use vstd::hash_map::StringHashMap;

use crate::session::{SessionInfo, SessionTable};
use crate::user::{User, UserView};

verus! {

/// The records indexed by username, in load order: a later record shadows an
/// earlier one with the same name.
pub open spec fn index_by_username(users: Seq<User>) -> Map<Seq<char>, UserView>
    decreases users.len(),
{
    if users.len() == 0 {
        Map::empty()
    } else {
        index_by_username(users.drop_last()).insert(users.last()@.username, users.last()@)
    }
}

/// One record's prefixes added to a prefix index, in order.
pub open spec fn insert_prefixes(
    m: Map<Seq<char>, UserView>,
    prefixes: Seq<Seq<char>>,
    u: UserView,
) -> Map<Seq<char>, UserView>
    decreases prefixes.len(),
{
    if prefixes.len() == 0 {
        m
    } else {
        insert_prefixes(m, prefixes.drop_last(), u).insert(prefixes.last(), u)
    }
}

/// The records indexed by each of their filename prefixes, in load order. A
/// prefix registered by several users resolves to the one loaded last — last
/// write wins, a documented ambiguity of the convention, not enforced.
pub open spec fn index_by_prefix(users: Seq<User>) -> Map<Seq<char>, UserView>
    decreases users.len(),
{
    if users.len() == 0 {
        Map::empty()
    } else {
        insert_prefixes(
            index_by_prefix(users.drop_last()),
            users.last()@.file_prefixes,
            users.last()@,
        )
    }
}

/// A map of records, seen record by record as its mathematical image.
pub open spec fn view_of_users(m: Map<Seq<char>, User>) -> Map<Seq<char>, UserView> {
    m.map_values(|u: User| u@)
}

/// The shared application state. The credential indexes are built before any
/// request traffic and never change afterwards; only the session table
/// mutates while serving.
pub struct AppState {
    pub users: StringHashMap<User>,
    pub prefix_map: StringHashMap<User>,
    pub tokens: SessionTable,
}

impl AppState {
    /// Builds the state from the records loaded at startup: indexes them by
    /// username and by every registered prefix, and starts with no live
    /// sessions.
    pub fn new_from_users(users: Vec<User>) -> (st: AppState)
        ensures
            view_of_users(st.users@) == index_by_username(users@),
            view_of_users(st.prefix_map@) == index_by_prefix(users@),
            st.tokens@ == Map::<Seq<char>, SessionInfo>::empty(),
    {
        let mut user_map: StringHashMap<User> = StringHashMap::new();
        let mut prefix_map: StringHashMap<User> = StringHashMap::new();
        proof {
            assert(view_of_users(user_map@) =~= index_by_username(users@.subrange(0, 0)));
            assert(view_of_users(prefix_map@) =~= index_by_prefix(users@.subrange(0, 0)));
        }
        let n = users.len();
        let mut i: usize = 0;
        while i < n
            invariant
                i <= n,
                n == users@.len(),
                view_of_users(user_map@) == index_by_username(users@.subrange(0, i as int)),
                view_of_users(prefix_map@) == index_by_prefix(users@.subrange(0, i as int)),
            decreases n - i,
        {
            let user = &users[i];
            user_map.insert(user.username(), user.clone());
            proof {
                assert(users@.subrange(0, i + 1 as int).drop_last() =~= users@.subrange(
                    0,
                    i as int,
                ));
                assert(users@.subrange(0, i + 1 as int).last() == users@[i as int]);
                assert(view_of_users(user_map@) =~= index_by_username(
                    users@.subrange(0, i + 1 as int),
                ));
            }
            let prefixes = user.prefixes();
            let m = prefixes.len();
            let mut j: usize = 0;
            while j < m
                invariant
                    j <= m,
                    i < n,
                    n == users@.len(),
                    m == users@[i as int]@.file_prefixes.len(),
                    prefixes.deep_view() == users@[i as int]@.file_prefixes,
                    user == &users[i as int],
                    view_of_users(prefix_map@) == insert_prefixes(
                        index_by_prefix(users@.subrange(0, i as int)),
                        users@[i as int]@.file_prefixes.subrange(0, j as int),
                        users@[i as int]@,
                    ),
                decreases m - j,
            {
                let p = prefixes[j].clone();
                prefix_map.insert(p, user.clone());
                proof {
                    let ps = users@[i as int]@.file_prefixes;
                    assert(ps.subrange(0, j + 1 as int).drop_last() =~= ps.subrange(0, j as int));
                    assert(ps.subrange(0, j + 1 as int).last() == ps[j as int]);
                    assert(prefixes@[j as int]@ == ps[j as int]);
                    assert(view_of_users(prefix_map@) =~= insert_prefixes(
                        index_by_prefix(users@.subrange(0, i as int)),
                        ps.subrange(0, j + 1 as int),
                        users@[i as int]@,
                    ));
                }
                j += 1;
            }
            proof {
                let ps = users@[i as int]@.file_prefixes;
                assert(ps.subrange(0, m as int) =~= ps);
                assert(users@.subrange(0, i + 1 as int).drop_last() =~= users@.subrange(
                    0,
                    i as int,
                ));
                assert(users@.subrange(0, i + 1 as int).last() == users@[i as int]);
                assert(view_of_users(prefix_map@) =~= index_by_prefix(
                    users@.subrange(0, i + 1 as int),
                ));
            }
            i += 1;
        }
        proof {
            assert(users@.subrange(0, n as int) =~= users@);
        }
        AppState { users: user_map, prefix_map, tokens: SessionTable::new() }
    }
}

} // verus!
