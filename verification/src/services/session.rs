use vstd::prelude::*;
use crate::error::AppError;
use crate::flow::{fails_with, out_of_step, propagates_failure, Answer, Query, Step};
use crate::models::{Session, SessionResponse};

verus! {

/// Listing the sessions of the signed-in user.
#[derive(Clone, Debug)]
pub enum ListingSessions {
    /// Waiting for the session of the device that asks.
    FindingCurrent { user_id: u128, device: String },
    /// Waiting for every session of the user.
    Listing { current_id: u128, device: String },
}

/// The listing of a session as the device that asks sees it: marked current
/// exactly when it is that device's session. The device shown is the one
/// that asks.
pub open spec fn listed(s: Session, current_id: u128, device: Seq<char>, l: SessionResponse) -> bool {
    &&& l.id == s.id
    &&& l.device@ == device
    &&& l.ip@ == s.ip@
    &&& l.created_at == s.created_at
    &&& l.expires_at == s.expires_at
    &&& l.is_current == (s.id == current_id)
    &&& l.is_revoked == s.is_revoked
}

/// Lists the sessions of a user, marking the one of the device that asks:
/// first asks for that device's unrevoked session.
pub fn list_sessions(user_id: u128, device: String) -> (r: Step<ListingSessions, Vec<SessionResponse>>)
    ensures
        r == Step::<ListingSessions, Vec<SessionResponse>>::Ask(
            ListingSessions::FindingCurrent { user_id, device },
            Query::FindActiveSession { user_id, device },
        ),
{
    let q = Query::FindActiveSession { user_id, device: device.clone() };
    Step::Ask(ListingSessions::FindingCurrent { user_id, device }, q)
}

fn mark_sessions(data: &Vec<Session>, current_id: u128, device: &String) -> (out: Vec<SessionResponse>)
    ensures
        out@.len() == data@.len(),
        forall|i: int| 0 <= i < data@.len() ==> listed(#[trigger] data@[i], current_id, device@, out@[i]),
{
    let mut out: Vec<SessionResponse> = Vec::new();
    let n = data.len();
    let mut i: usize = 0;
    while i < n
        invariant
            n == data@.len(),
            i <= n,
            out@.len() == i,
            forall|j: int| 0 <= j < i ==> listed(#[trigger] data@[j], current_id, device@, out@[j]),
        decreases n - i,
    {
        let s = &data[i];
        out.push(
            SessionResponse {
                id: s.id,
                device: device.clone(),
                ip: s.ip.clone(),
                created_at: s.created_at,
                expires_at: s.expires_at,
                is_current: s.id == current_id,
                is_revoked: s.is_revoked,
            },
        );
        i = i + 1;
    }
    out
}

impl ListingSessions {
    /// Goes on with an answer: a device without an unrevoked session is
    /// unauthorized; otherwise every session of the user is listed, and only
    /// the device's own is marked current.
    pub fn resume(self, answer: Answer) -> (r: Step<ListingSessions, Vec<SessionResponse>>)
        ensures
            propagates_failure(r, answer),
            match self {
                ListingSessions::FindingCurrent { user_id, device } => match answer {
                    Answer::MaybeId(None) => fails_with(r, AppError::Unauthorized),
                    Answer::MaybeId(Some(current_id)) => r == Step::<ListingSessions, Vec<SessionResponse>>::Ask(
                        ListingSessions::Listing { current_id, device },
                        Query::ListSessions { user_id },
                    ),
                    Answer::Failed(_) => true,
                    _ => fails_with(r, AppError::InternalServerError),
                },
                ListingSessions::Listing { current_id, device } => match answer {
                    Answer::Sessions(data) => r matches Step::Finish(Ok(out)) && out@.len() == data@.len()
                        && forall|i: int| 0 <= i < data@.len() ==> listed(#[trigger] data@[i], current_id, device@, out@[i]),
                    Answer::Failed(_) => true,
                    _ => fails_with(r, AppError::InternalServerError),
                },
            },
    {
        match self {
            ListingSessions::FindingCurrent { user_id, device } => match answer {
                Answer::MaybeId(None) => Step::Finish(Err(AppError::Unauthorized)),
                Answer::MaybeId(Some(current_id)) => Step::Ask(
                    ListingSessions::Listing { current_id, device },
                    Query::ListSessions { user_id },
                ),
                Answer::Failed(e) => Step::Finish(Err(e)),
                _ => out_of_step(),
            },
            ListingSessions::Listing { current_id, device } => match answer {
                Answer::Sessions(data) => Step::Finish(Ok(mark_sessions(&data, current_id, &device))),
                Answer::Failed(e) => Step::Finish(Err(e)),
                _ => out_of_step(),
            },
        }
    }
}

} // verus!
