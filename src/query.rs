//! Reading a join request out of the decoded pairs of a query string.

use vstd::prelude::*;

verus! {

/// The decoded pairs of a query string, as values.
pub open spec fn pairs_view(pairs: Seq<(String, String)>) -> Seq<(Seq<char>, Seq<char>)> {
    pairs.map_values(|p: (String, String)| (p.0@, p.1@))
}

/// The values given for `key`, in the order of the query.
pub open spec fn values_of(pairs: Seq<(Seq<char>, Seq<char>)>, key: Seq<char>) -> Seq<Seq<char>>
    decreases pairs.len(),
{
    if pairs.len() == 0 {
        Seq::empty()
    } else {
        let rest = values_of(pairs.drop_last(), key);
        if pairs.last().0 == key {
            rest.push(pairs.last().1)
        } else {
            rest
        }
    }
}

/// The value of a parameter that is given exactly once; a parameter that is
/// missing or repeated has none.
pub open spec fn single_value(pairs: Seq<(Seq<char>, Seq<char>)>, key: Seq<char>) -> Option<Seq<char>> {
    let vs = values_of(pairs, key);
    if vs.len() == 1 {
        Some(vs[0])
    } else {
        None
    }
}

/// The parameter naming the room.
pub open spec fn room_name_key() -> Seq<char> {
    "room_name"@
}

/// The parameter naming the participant.
pub open spec fn identity_key() -> Seq<char> {
    "identity"@
}

/// The room and identity that a query asks for, where each is given once and
/// is not empty.
pub open spec fn requested(pairs: Seq<(Seq<char>, Seq<char>)>) -> Option<(Seq<char>, Seq<char>)> {
    match (single_value(pairs, room_name_key()), single_value(pairs, identity_key())) {
        (Some(room), Some(identity)) => if room.len() > 0 && identity.len() > 0 {
            Some((room, identity))
        } else {
            None
        },
        _ => None,
    }
}

/// A request to join one room under one identity.
pub struct JoinRequest {
    pub room_name: String,
    pub identity: String,
}

/// The value of `key` where the query gives it exactly once.
pub fn find_single(pairs: &Vec<(String, String)>, key: &String) -> (r: Option<String>)
    ensures
        match r {
            Some(v) => single_value(pairs_view(pairs@), key@) == Some(v@),
            None => single_value(pairs_view(pairs@), key@) is None,
        },
{
    let ghost all = pairs_view(pairs@);
    let mut first: Option<String> = None;
    let mut count: usize = 0;
    let mut i: usize = 0;
    while i < pairs.len()
        invariant
            i <= pairs.len(),
            all == pairs_view(pairs@),
            count == values_of(all.subrange(0, i as int), key@).len(),
            count <= i,
            count == 0 <==> first is None,
            first matches Some(v) ==> v@ == values_of(all.subrange(0, i as int), key@)[0],
        decreases pairs.len() - i,
    {
        let ghost before = all.subrange(0, i as int);
        assert(all.subrange(0, i as int + 1).drop_last() =~= before);
        if pairs[i].0 == *key {
            if count == 0 {
                first = Some(pairs[i].1.clone());
            }
            count = count + 1;
        }
        i = i + 1;
    }
    assert(all.subrange(0, pairs@.len() as int) =~= all);
    if count == 1 {
        first
    } else {
        None
    }
}

impl JoinRequest {
    /// Reads the room and the identity from the decoded pairs of a query
    /// string. Each must be given exactly once and be non-empty; any other
    /// parameter is ignored.
    pub fn from_query(pairs: &Vec<(String, String)>) -> (r: Option<JoinRequest>)
        ensures
            match requested(pairs_view(pairs@)) {
                Some((room, identity)) => r matches Some(j) && j.room_name@ == room && j.identity@ == identity,
                None => r is None,
            },
    {
        let room_key = "room_name".to_owned();
        let identity_key = "identity".to_owned();
        let room = find_single(pairs, &room_key);
        let identity = find_single(pairs, &identity_key);
        match (room, identity) {
            (Some(room_name), Some(identity)) => {
                if room_name.as_str().is_empty() || identity.as_str().is_empty() {
                    None
                } else {
                    Some(JoinRequest { room_name, identity })
                }
            },
            _ => None,
        }
    }
}

} // verus!
