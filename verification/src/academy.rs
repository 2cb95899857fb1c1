use vstd::prelude::*;
use crate::effect::{text_result, Effect};
use crate::error::GameError;
use crate::events::{event_views, publish, Event, EventView};
use crate::pet::{can_grant, grant};
use crate::tags::same_text;
use crate::types::{copy_texts, texts, Account, AccountView, Call};

verus! {

/// The experience a new badge gives the pet.
pub const BADGE_XP: u64 = 50;

/// Whether `badge` is among `badges`.
pub fn holds_badge(badges: &Vec<String>, badge: &str) -> (held: bool)
    ensures
        held == texts(badges@).contains(badge@),
{
    let mut i: usize = 0;
    while i < badges.len()
        invariant
            0 <= i <= badges.len(),
            forall|j: int| 0 <= j < i ==> texts(badges@)[j] != badge@,
        decreases badges.len() - i,
    {
        if same_text(badges[i].as_str(), badge) {
            assert(texts(badges@)[i as int] == badge@);
            return true;
        }
        i = i + 1;
    }
    false
}

/// What claiming a badge does. Only the owner's authorization gates it,
/// not the pause flag. A badge that is held already changes nothing and
/// publishes nothing; the list is handed back as it is. A new badge goes to
/// the end of the list and gives the pet, if there is one, `BADGE_XP`
/// experience.
pub open spec fn claim_effect(call: Call, account: AccountView, badge_id: Seq<char>) -> Effect<
    Seq<Seq<char>>,
> {
    if !call.authorized {
        Effect::refused(account, GameError::Unauthorized)
    } else if account.badges.contains(badge_id) {
        Effect { account, events: Seq::empty(), result: Ok(account.badges) }
    } else {
        let claimed = AccountView { badges: account.badges.push(badge_id), ..account };
        Effect {
            account: claimed.granted(BADGE_XP as nat),
            events: claimed.grant_events(BADGE_XP as nat).push(
                EventView::Badge { owner: account.owner, badge_id },
            ),
            result: Ok(claimed.badges),
        }
    }
}

/// Whether `claim_badge` can be called with these arguments: whether the
/// machine types can hold what it would write.
pub fn can_claim_badge(call: &Call, account: &Account, badge_id: &str) -> (room: bool)
    ensures
        room == claim_effect(*call, account@, badge_id@).account.fits(),
{
    !call.authorized || holds_badge(&account.badges, badge_id) || can_grant(account, BADGE_XP)
}

/// Claims a badge for the owner and returns the badges held afterwards,
/// oldest first.
pub fn claim_badge(
    call: &Call,
    account: &mut Account,
    log: &mut Vec<Event>,
    badge_id: &str,
) -> (res: Result<Vec<String>, GameError>)
    requires
        claim_effect(*call, old(account)@, badge_id@).account.fits(),
    ensures
        ({
            let effect = claim_effect(*call, old(account)@, badge_id@);
            &&& final(account)@ == effect.account
            &&& event_views(final(log)@) == event_views(old(log)@) + effect.events
            &&& text_result(res) == effect.result
        }),
        old(account)@.wf() ==> final(account)@.wf(),
        final(account)@.owner == old(account)@.owner,
{
    assert(event_views(log@) + Seq::empty() =~= event_views(log@));
    if !call.authorized {
        return Err(GameError::Unauthorized);
    }
    if holds_badge(&account.badges, badge_id) {
        return Ok(copy_texts(&account.badges));
    }
    account.badges.push(badge_id.to_owned());
    assert(texts(account.badges@) =~= texts(old(account).badges@).push(badge_id@));
    let ghost before = event_views(log@);
    let ghost claimed = account@;
    grant(account, log, BADGE_XP);
    publish(log, Event::Badge { owner: account.owner.clone(), badge_id: badge_id.to_owned() });
    assert(event_views(log@) =~= before + claimed.grant_events(BADGE_XP as nat).push(
        EventView::Badge { owner: account@.owner, badge_id: badge_id@ },
    ));
    Ok(copy_texts(&account.badges))
}

/// The badges the owner holds, oldest first; none for an owner who never
/// claimed one.
pub fn get_badges(account: &Account) -> (badges: Vec<String>)
    ensures
        texts(badges@) == account@.badges,
{
    copy_texts(&account.badges)
}

/// Claiming is idempotent: once a claim went through, an authorized claim
/// of the same badge leaves the whole account as it is (badges, stats and
/// pet), publishes nothing, and returns the same list.
pub proof fn lemma_claim_idempotent(
    first: Call,
    account: AccountView,
    badge_id: Seq<char>,
    second: Call,
)
    requires
        claim_effect(first, account, badge_id).result is Ok,
        second.authorized,
    ensures
        ({
            let once = claim_effect(first, account, badge_id);
            let twice = claim_effect(second, once.account, badge_id);
            &&& twice.account == once.account
            &&& twice.events == Seq::<EventView>::empty()
            &&& twice.result == once.result
        }),
{
    let once = claim_effect(first, account, badge_id);
    if !account.badges.contains(badge_id) {
        let claimed = account.badges.push(badge_id);
        assert(claimed[claimed.len() - 1] == badge_id);
        assert(once.account.badges == claimed);
    }
}

/// No badge is held twice: where the list held no badge twice before a
/// claim, it holds none twice after it.
pub proof fn lemma_claim_keeps_badges_distinct(
    call: Call,
    account: AccountView,
    badge_id: Seq<char>,
)
    requires
        account.badges.no_duplicates(),
    ensures
        claim_effect(call, account, badge_id).account.badges.no_duplicates(),
{
}

} // verus!
