use vstd::prelude::*;

use super::command::Command;

verus! {

/// A query for a search in titles and descriptions has at least this many bytes.
pub const MIN_QUERY_LEN: usize = 3;

/// Whether a command may be carried out for who sent it.
#[derive(Clone, Copy, PartialEq, Eq, Structural, Debug)]
pub enum Access {
    Granted,
    /// The sender is not on the whitelist, and the command is not open to everyone.
    NotWhitelisted,
    /// The command is the administrator's, and the sender is someone else.
    NotAdmin,
}

/// Whether the whitelist has to be asked about the sender: for a command that is not open
/// to everyone, and only where the message names its sender.
pub fn asks_whitelist(cmd: &Command, has_sender: bool) -> (asks: bool)
    ensures
        asks == (!cmd.unrestricted() && has_sender),
{
    !cmd.unrestricted() && has_sender
}

/// Decides whether the command is carried out. `whitelisted` is what the whitelist says of
/// the sender, and counts only where `asks_whitelist` says so; `admin` is whether the
/// sender is the administrator.
pub fn access(cmd: &Command, has_sender: bool, whitelisted: bool, admin: bool) -> (a: Access)
    ensures
        a == if !cmd.unrestricted() && has_sender && !whitelisted {
            Access::NotWhitelisted
        } else if cmd.admin_access() && !admin {
            Access::NotAdmin
        } else {
            Access::Granted
        },
{
    if asks_whitelist(cmd, has_sender) && !whitelisted {
        Access::NotWhitelisted
    } else if cmd.admin_access() && !admin {
        Access::NotAdmin
    } else {
        Access::Granted
    }
}

/// Whether the sender is the administrator: the message names a sender whose user name is
/// the administrator's.
pub fn is_admin(username: &Option<String>, admin: &String) -> (is: bool)
    ensures
        is == (username matches Some(name) && name@ == admin@),
{
    match username {
        Some(name) => *name == *admin,
        None => false,
    }
}

/// Whether a query is long enough for a search in titles and descriptions.
pub fn long_enough(query: &str) -> (enough: bool)
    ensures
        enough == (query.len() >= MIN_QUERY_LEN),
{
    query.len() >= MIN_QUERY_LEN
}

/// What a user is answered who asks to be let into the beta.
#[derive(Clone, Copy, PartialEq, Eq, Structural, Debug)]
pub enum BetaAnswer {
    /// The user is in the beta already.
    AlreadyIn,
    /// The user has asked before and waits.
    AlreadyAsked,
    /// The user is put on the waiting list.
    Enlisted,
}

/// Decides on a request to join the beta. `known` is, for a user that the store knows,
/// whether the user is in the beta and whether on the waiting list.
pub fn beta_request(known: Option<(bool, bool)>) -> (answer: BetaAnswer)
    ensures
        answer == match known {
            Some((beta, waitlist)) => if beta {
                BetaAnswer::AlreadyIn
            } else if waitlist {
                BetaAnswer::AlreadyAsked
            } else {
                BetaAnswer::Enlisted
            },
            None => BetaAnswer::Enlisted,
        },
{
    match known {
        Some((beta, waitlist)) => {
            if beta {
                BetaAnswer::AlreadyIn
            } else if waitlist {
                BetaAnswer::AlreadyAsked
            } else {
                BetaAnswer::Enlisted
            }
        },
        None => BetaAnswer::Enlisted,
    }
}

/// The episode and the pattern of a search in one episode: the first two arguments of the
/// command. With fewer than two the query is malformed.
pub fn episode_query(args: Vec<String>) -> (query: Option<(String, String)>)
    ensures
        query == if args@.len() >= 2 {
            Some((args@[0], args@[1]))
        } else {
            None
        },
{
    if args.len() < 2 {
        return None;
    }
    let episode = args[0].clone();
    let pattern = args[1].clone();
    Some((episode, pattern))
}

} // verus!
