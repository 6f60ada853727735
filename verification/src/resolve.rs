//! Interface resolution: given an interface name, produce the
//! interface's addresses.  The handle-based platform enumerates all
//! adapters and scans them here; the descriptor-based platform issues
//! three sequential OS queries, whose result codes are judged here.
//! The OS calls themselves are made outside the library and hand in
//! plain values.

use vstd::prelude::*;
use crate::addr::Ipv4;
use crate::addr::Mac;
use crate::error::CursedError;
use crate::error::CursedErrorHandle;
use crate::text::dec_rep;
use crate::text::fmt_u32;

verus! {

/// What the resolver knows of one enumerated adapter: its printable
/// name and its first-listed addresses, as plain values.
pub struct AdapterInfo {
    pub name: String,
    pub ip: Ipv4,
    pub mac: Mac,
}

/// Whether the adapter at position `i` carries exactly the requested
/// name (exact equality of the printable form, no case folding).
pub open spec fn name_matches(adapters: Seq<AdapterInfo>, name: Seq<char>, i: int) -> bool {
    adapters[i].name@ == name
}

/// Whether some adapter in the list carries the requested name.
pub open spec fn some_match(adapters: Seq<AdapterInfo>, name: Seq<char>) -> bool {
    exists|i: int| 0 <= i < adapters.len() && name_matches(adapters, name, i)
}

/// Scans the enumerated adapters for the requested name and hands back
/// the matching entry's addresses; when several entries carry the name
/// the last one wins.  Fails with invalid-argument if and only if no
/// entry matches.
pub fn resolve_adapter(adapters: &Vec<AdapterInfo>, name: &String) -> (r: Result<
    (Ipv4, Mac),
    CursedErrorHandle,
>)
    ensures
        some_match(adapters@, name@) <==> r is Ok,
        r matches Ok(found) ==> exists|i: int|
            0 <= i < adapters@.len() && name_matches(adapters@, name@, i) && (forall|j: int|
                i < j < adapters@.len() ==> !name_matches(adapters@, name@, j)) && found.0
                == adapters@[i].ip && found.1 == adapters@[i].mac,
        r matches Err(e) ==> e.kind == CursedError::InvalidArgument && e.reason@ == name@
            + " is not valid adapter name"@,
{
    let mut found: Option<(Ipv4, Mac)> = None;
    let ghost mut last_match: int = -1;
    let mut k: usize = 0;
    while k < adapters.len()
        invariant
            k <= adapters@.len(),
            (found is None) <==> (last_match == -1),
            found is None ==> forall|j: int| 0 <= j < k ==> !name_matches(adapters@, name@, j),
            found matches Some(f) ==> 0 <= last_match < k && name_matches(
                adapters@,
                name@,
                last_match,
            ) && (forall|j: int| last_match < j < k ==> !name_matches(adapters@, name@, j)) && f.0
                == adapters@[last_match].ip && f.1 == adapters@[last_match].mac,
        decreases adapters@.len() - k,
    {
        if adapters[k].name.eq(name) {
            found = Some((adapters[k].ip, adapters[k].mac));
            proof {
                last_match = k as int;
            }
        }
        k += 1;
    }
    match found {
        Some(f) => {
            proof {
                assert(0 <= last_match < adapters@.len() && name_matches(
                    adapters@,
                    name@,
                    last_match,
                ) && (forall|j: int|
                    last_match < j < adapters@.len() ==> !name_matches(adapters@, name@, j)) && f.0
                    == adapters@[last_match].ip && f.1 == adapters@[last_match].mac);
            }
            Ok(f)
        },
        None => {
            let mut reason = name.clone();
            reason.append(" is not valid adapter name");
            Err(CursedErrorHandle::new(CursedError::InvalidArgument, reason))
        },
    }
}

/// Decision on the result code of the two-pass adapters enumeration:
/// zero reports success, any other code fails the resolution with a
/// socket-operation error carrying the numeric code.
pub fn adapters_query_outcome(result: u32) -> (r: Result<(), CursedErrorHandle>)
    ensures
        (result == 0) <==> (r is Ok),
        r matches Err(e) ==> e.kind == CursedError::Sockets && e.reason@ == "Got "@ + dec_rep(
            result as nat,
        ) + " error while getting adapters info"@,
{
    if result == 0 {
        Ok(())
    } else {
        let mut reason = "Got ".to_owned();
        reason.append(fmt_u32(result).as_str());
        reason.append(" error while getting adapters info");
        Err(CursedErrorHandle::new(CursedError::Sockets, reason))
    }
}

/// The three sequential queries the descriptor-based resolver issues
/// against an open raw socket, in order: interface index, assigned
/// IPv4 address, hardware address.
#[derive(Clone, Copy, PartialEq, Eq, Structural, Debug)]
pub enum IfQuery {
    Index,
    Address,
    Hardware,
}

/// The diagnostic text reported when a given query fails.
pub open spec fn query_diag(query: IfQuery) -> Seq<char> {
    match query {
        IfQuery::Index => "Got error while getting SIOCGIFINDEX"@,
        IfQuery::Address => "Got error while getting SIOCGIFADDR"@,
        IfQuery::Hardware => "Got error while getting SIOCGIFHWADDR"@,
    }
}

/// Decision on one interface-query result code: -1 reports failure,
/// anything else success.  A failure carries a socket-operation error
/// naming the query; the caller stops at the first failing query and
/// returns no partial result.
pub fn query_outcome(err: i32, query: IfQuery) -> (r: Result<(), CursedErrorHandle>)
    ensures
        (err != -1) <==> (r is Ok),
        r matches Err(e) ==> e.kind == CursedError::Sockets && e.reason@ == query_diag(query),
{
    if err == -1 {
        let reason: &str = match query {
            IfQuery::Index => "Got error while getting SIOCGIFINDEX",
            IfQuery::Address => "Got error while getting SIOCGIFADDR",
            IfQuery::Hardware => "Got error while getting SIOCGIFHWADDR",
        };
        Err(CursedErrorHandle::new(CursedError::Sockets, reason.to_owned()))
    } else {
        Ok(())
    }
}

} // verus!
