use vstd::prelude::*;
use crate::error::GameError;
use crate::events::EventView;
use crate::tags::Loot;
use crate::types::{texts, AccountView};

verus! {

/// What an operation does to one account: the account after it, the events
/// it publishes in order, and what it returns. An operation that is refused
/// leaves the account as it was and publishes nothing.
pub struct Effect<T> {
    pub account: AccountView,
    pub events: Seq<EventView>,
    pub result: Result<T, GameError>,
}

impl<T> Effect<T> {
    /// The effect of an operation refused with `error`.
    pub open spec fn refused(account: AccountView, error: GameError) -> Effect<T> {
        Effect { account, events: Seq::empty(), result: Err(error) }
    }
}

/// A result that holds a list of texts, as a mathematical value.
pub open spec fn text_result(res: Result<Vec<String>, GameError>) -> Result<
    Seq<Seq<char>>,
    GameError,
> {
    match res {
        Ok(list) => Ok(texts(list@)),
        Err(error) => Err(error),
    }
}

/// A result that holds the loot of a hunt, as a mathematical value.
pub open spec fn loot_result(res: Result<Vec<Loot>, GameError>) -> Result<Seq<Loot>, GameError> {
    match res {
        Ok(list) => Ok(list@),
        Err(error) => Err(error),
    }
}

} // verus!
