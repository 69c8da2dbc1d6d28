//! What holds of the library as a whole.

use vstd::prelude::*;

use crate::client::{chosen_client_id, no_client_id_message, Endpoints, CLIENT_ID_ENV};
use crate::clock::{fresh_at, EXPIRY_MARGIN_MS};
use crate::credentials::MicrosoftCredentials;
use crate::exchange::{
    app_not_approved_message, login_decision, VerdictView, APP_REVIEW_FORM, FORBIDDEN,
};
use crate::identity::{hex_digit, hex_value, uuid_digits, uuid_value};
use crate::session::{
    goes_on, is_over, login_request, next, profile_request, run, session_hash, steps_left,
    xsts_refusal_message, xsts_request, ActionView, Event, SessionDraft, Stage,
};
use crate::status::{success, HttpStatus};
use crate::text::{is_white_space, trimmed, trimmed_end, trimmed_start};
use crate::tokens::{error_or_silent, poll_outcome, refresh_outcome, Poll, Reply, TokenResponse};
use crate::xbox::{MinecraftLogin, Profile, XboxToken, XstsError};

verus! {

// --- the application id -----------------------------------------------------

proof fn lemma_trimmed_start(text: Seq<char>)
    ensures
        trimmed_start(text).len() > 0 ==> !is_white_space(trimmed_start(text).first()),
    decreases text.len(),
{
    if text.len() > 0 && is_white_space(text.first()) {
        lemma_trimmed_start(text.drop_first());
    }
}

proof fn lemma_trimmed_end(text: Seq<char>)
    ensures
        trimmed_end(text).len() <= text.len(),
        trimmed_end(text) == text.take(trimmed_end(text).len() as int),
        trimmed_end(text).len() > 0 ==> !is_white_space(trimmed_end(text).last()),
    decreases text.len(),
{
    if text.len() > 0 && is_white_space(text.last()) {
        lemma_trimmed_end(text.drop_last());
        assert(trimmed_end(text) =~= text.take(trimmed_end(text).len() as int));
    } else {
        assert(text =~= text.take(text.len() as int));
    }
}

/// A trimmed text has whitespace at neither end, and trimming it again changes
/// nothing.
proof fn lemma_trimmed(text: Seq<char>)
    ensures
        trimmed(text).len() > 0 ==> !is_white_space(trimmed(text).first()) && !is_white_space(
            trimmed(text).last(),
        ),
        trimmed(trimmed(text)) == trimmed(text),
{
    lemma_trimmed_start(text);
    lemma_trimmed_end(trimmed_start(text));
}

/// The id that is chosen is used as it stands: it has no whitespace around it,
/// and choosing again, with it in the environment or compiled in, gives it
/// again.
pub proof fn law_chosen_client_id_is_stable(from_env: Seq<char>, compiled: Seq<char>)
    ensures
        ({
            let id = chosen_client_id(from_env, compiled);
            &&& id.len() > 0 ==> !is_white_space(id.first()) && !is_white_space(id.last())
            &&& id.len() > 0 ==> chosen_client_id(id, compiled) == id
            &&& chosen_client_id(Seq::empty(), id) == id
        }),
{
    lemma_trimmed(from_env);
    lemma_trimmed(compiled);
}

/// An environment variable that is not blank wins, whatever was compiled in.
pub proof fn law_environment_wins(from_env: Seq<char>, compiled: Seq<char>, other: Seq<char>)
    requires
        trimmed(from_env).len() > 0,
    ensures
        chosen_client_id(from_env, compiled) == chosen_client_id(from_env, other),
{
}

/// Where there is no id, what is said ends with the variable to set.
pub proof fn law_missing_client_id_names_the_variable()
    ensures
        CLIENT_ID_ENV@.is_suffix_of(no_client_id_message()),
{
    let whole = no_client_id_message();
    assert(whole.subrange(whole.len() - CLIENT_ID_ENV@.len(), whole.len() as int)
        =~= CLIENT_ID_ENV@);
}

// --- waiting for the user ---------------------------------------------------

/// The code of the refusal in `reply`, once it has one in any case.
pub open spec fn refusal_code(reply: Reply<TokenResponse>) -> Option<Seq<char>> {
    match reply {
        Reply::Accepted(_) => None,
        Reply::Refused { status, error } => Some(error_or_silent(error).coded(status@).error),
    }
}

/// Two refusals, and no others, mean "keep waiting"; tokens come with an
/// accepting reply alone; whatever else comes is the end of the wait.
pub proof fn law_two_codes_mean_wait(reply: Reply<TokenResponse>)
    ensures
        poll_outcome(reply) matches Ok(Poll::Pending) <==> refusal_code(reply) == Some(
            "authorization_pending"@,
        ),
        poll_outcome(reply) matches Ok(Poll::SlowDown) <==> refusal_code(reply) == Some(
            "slow_down"@,
        ),
        poll_outcome(reply) matches Ok(Poll::Ready(_)) <==> reply is Accepted,
{
    reveal_strlit("authorization_pending");
    reveal_strlit("slow_down");
    assert("authorization_pending"@.len() != "slow_down"@.len());
}

/// A refusal has a code and says something, also where its body could not be
/// read; and a refusal without a code of its own never means "keep waiting".
pub proof fn law_refusal_is_never_silent(reply: Reply<TokenResponse>)
    ensures
        reply matches Reply::Refused { status, error } ==> {
            let refusal = error_or_silent(error).coded(status@);
            &&& refusal.error.len() > 0
            &&& refusal.description().len() > 0
            &&& error_or_silent(error).error.len() == 0 ==> poll_outcome(reply) == Err::<
                Poll,
                Seq<char>,
            >(refusal.description())
        },
{
    reveal_strlit("http_");
    reveal_strlit("authorization_pending");
    reveal_strlit("slow_down");
    reveal_strlit("expired_token");
    reveal_strlit("code_expired");
    reveal_strlit("authorization_declined");
    reveal_strlit("bad_verification_code");
    if let Reply::Refused { status, error } = reply {
        let refusal = error_or_silent(error).coded(status@);
        if error_or_silent(error).error.len() == 0 {
            assert(refusal.error[0] == 'h');
            assert("authorization_pending"@[0] == 'a');
            assert("slow_down"@[0] == 's');
            assert("expired_token"@[0] == 'e');
            assert("code_expired"@[0] == 'c');
            assert("authorization_declined"@[0] == 'a');
            assert("bad_verification_code"@[0] == 'b');
        }
    }
}

/// Polling and renewing agree on what grants tokens, and on the tokens.
pub proof fn law_poll_and_refresh_grant_the_same(reply: Reply<TokenResponse>)
    ensures
        refresh_outcome(reply) is Ok <==> poll_outcome(reply) matches Ok(Poll::Ready(_)),
        refresh_outcome(reply) matches Ok(tokens) ==> poll_outcome(reply) == Ok::<Poll, Seq<char>>(
            Poll::Ready(Box::new(tokens)),
        ),
{
    law_two_codes_mean_wait(reply);
}

// --- from token to session --------------------------------------------------

/// 16 to the power of `n`.
spec fn power_of_16(n: nat) -> nat
    decreases n,
{
    if n == 0 {
        1
    } else {
        16 * power_of_16((n - 1) as nat)
    }
}

proof fn lemma_hex_value_bound(digits: Seq<char>)
    ensures
        hex_value(digits) matches Some(value) ==> value < power_of_16(digits.len()),
    decreases digits.len(),
{
    if digits.len() > 0 {
        lemma_hex_value_bound(digits.drop_last());
        assert(hex_digit(digits.last()) matches Some(low) ==> low < 16);
    }
}

/// The value of every UUID fits in 128 bits.
pub proof fn law_uuid_fits_in_128_bits(text: Seq<char>)
    ensures
        uuid_value(text) matches Some(value) ==> value <= u128::MAX,
{
    if let Some(digits) = uuid_digits(text) {
        assert(digits.len() == 32);
        lemma_hex_value_bound(digits);
        reveal_with_fuel(power_of_16, 33);
        assert(power_of_16(32) == 0x1_0000_0000_0000_0000_0000_0000_0000_0000);
    }
}

/// The identity is the server's. Wherever a sign-in stands and whatever
/// happens, a session comes of nothing but a profile, once every exchange
/// before it was accepted: the username is the profile's name, the UUID is the
/// one that the profile's id writes, and the token is the one that the
/// Minecraft login gave.
pub proof fn law_identity_is_the_servers(endpoints: Endpoints, stage: Stage, event: Event)
    ensures
        next(endpoints, stage, event).1 matches ActionView::Open(draft) ==> {
            &&& stage matches Stage::ProfileAnswer { login, xuid }
            &&& event matches Event::Profile(profile)
            &&& draft.username == profile.name
            &&& uuid_value(profile.id@) == Some(draft.uuid as nat)
            &&& draft.access_token == login.access_token
            &&& draft.expires_in == login.expires_in
            &&& draft.xuid == xuid
        },
{
    if let Event::Profile(profile) = event {
        law_uuid_fits_in_128_bits(profile.id@);
    }
}

proof fn lemma_run_push(endpoints: Endpoints, stage: Stage, events: Seq<Event>, event: Event)
    ensures
        ({
            let before = run(endpoints, stage, events);
            let now = next(endpoints, before.0, event);
            run(endpoints, stage, events.push(event)) == (now.0, before.1.push(now.1))
        }),
{
    assert(events.push(event).drop_last() =~= events);
}

/// Where the four services accept and a token names the user, the sign-in sends
/// each service what the one before it gave, and ends with the session that
/// the last two describe.
pub proof fn law_full_chain_opens_the_session(
    endpoints: Endpoints,
    statuses: (HttpStatus, HttpStatus, HttpStatus, HttpStatus),
    xbl: XboxToken,
    xsts: XboxToken,
    login: MinecraftLogin,
    profile: Profile,
    uuid: u128,
)
    requires
        success(statuses.0@),
        success(statuses.1@),
        success(statuses.2@),
        success(statuses.3@),
        session_hash(xsts, xbl) is Some,
        uuid_value(profile.id@) == Some(uuid as nat),
    ensures
        run(
            endpoints,
            Stage::XboxLive,
            seq![
                Event::Status(statuses.0),
                Event::Token(xbl),
                Event::Status(statuses.1),
                Event::Token(xsts),
                Event::Status(statuses.2),
                Event::Login(login),
                Event::Status(statuses.3),
                Event::Profile(profile),
            ],
        ) == (
            Stage::Closed,
            seq![
                ActionView::ReadToken,
                ActionView::Post(xsts_request(endpoints, xbl)),
                ActionView::ReadToken,
                ActionView::Post(login_request(endpoints, session_hash(xsts, xbl)->0, xsts)),
                ActionView::ReadLogin,
                ActionView::Get(profile_request(endpoints, login)),
                ActionView::ReadProfile,
                ActionView::Open(
                    SessionDraft {
                        uuid,
                        username: profile.name,
                        access_token: login.access_token,
                        expires_in: login.expires_in,
                        xuid: xsts.claimed_xuid(),
                    },
                ),
            ],
        ),
{
    let start = Stage::XboxLive;
    let e0 = Seq::<Event>::empty();
    let e1 = e0.push(Event::Status(statuses.0));
    let e2 = e1.push(Event::Token(xbl));
    let e3 = e2.push(Event::Status(statuses.1));
    let e4 = e3.push(Event::Token(xsts));
    let e5 = e4.push(Event::Status(statuses.2));
    let e6 = e5.push(Event::Login(login));
    let e7 = e6.push(Event::Status(statuses.3));
    lemma_run_push(endpoints, start, e0, Event::Status(statuses.0));
    lemma_run_push(endpoints, start, e1, Event::Token(xbl));
    lemma_run_push(endpoints, start, e2, Event::Status(statuses.1));
    lemma_run_push(endpoints, start, e3, Event::Token(xsts));
    lemma_run_push(endpoints, start, e4, Event::Status(statuses.2));
    lemma_run_push(endpoints, start, e5, Event::Login(login));
    lemma_run_push(endpoints, start, e6, Event::Status(statuses.3));
    lemma_run_push(endpoints, start, e7, Event::Profile(profile));
    assert(run(endpoints, start, e0) == (start, Seq::<ActionView>::empty()));
    assert(run(endpoints, start, e4).0 == Stage::Login { xuid: xsts.claimed_xuid() });
    assert(e7.push(Event::Profile(profile)) =~= seq![
        Event::Status(statuses.0),
        Event::Token(xbl),
        Event::Status(statuses.1),
        Event::Token(xsts),
        Event::Status(statuses.2),
        Event::Login(login),
        Event::Status(statuses.3),
        Event::Profile(profile),
    ]);
}

/// The services that a sign-in asks.
pub enum Service {
    XboxLive,
    Xsts,
    Login,
    Profile,
}

/// The services, each once, in the order in which a sign-in asks them.
pub open spec fn services() -> Seq<Service> {
    seq![Service::XboxLive, Service::Xsts, Service::Login, Service::Profile]
}

/// The service whose status `stage` waits for.
pub open spec fn awaited(stage: Stage) -> Option<Service> {
    match stage {
        Stage::XboxLive => Some(Service::XboxLive),
        Stage::Xsts { .. } => Some(Service::Xsts),
        Stage::Login { .. } => Some(Service::Login),
        Stage::Profile { .. } => Some(Service::Profile),
        _ => None,
    }
}

/// The stage in which the event at `i` finds a sign-in.
pub open spec fn stage_before(endpoints: Endpoints, events: Seq<Event>, i: int) -> Stage {
    run(endpoints, Stage::XboxLive, events.take(i)).0
}

/// Whether `service` has accepted: one of `events` is its status, and accepts.
pub open spec fn accepted_by(endpoints: Endpoints, events: Seq<Event>, service: Service) -> bool {
    exists|i: int|
        0 <= i < events.len() && awaited(stage_before(endpoints, events, i)) == Some(service) && (
        #[trigger] events[i] matches Event::Status(status) && success(status@))
}

/// Whether `xuid` is the Xbox id of the token with which XSTS answered.
pub open spec fn xuid_is_from_xsts(
    endpoints: Endpoints,
    events: Seq<Event>,
    xuid: Option<String>,
) -> bool {
    exists|i: int|
        0 <= i < events.len() && stage_before(endpoints, events, i) is XstsToken && (
        #[trigger] events[i] matches Event::Token(xsts) && xuid == xsts.claimed_xuid())
}

/// Whether `login` is what the Minecraft login answered.
pub open spec fn login_is_answered(
    endpoints: Endpoints,
    events: Seq<Event>,
    login: MinecraftLogin,
) -> bool {
    exists|i: int|
        0 <= i < events.len() && stage_before(endpoints, events, i) is LoginAnswer
            && #[trigger] events[i] == Event::Login(login)
}

/// How many services have accepted in `stage`.
spec fn accepted_count(stage: Stage) -> int {
    match stage {
        Stage::XboxLive | Stage::XstsRefused | Stage::LoginRefused { .. } | Stage::Closed => 0,
        Stage::XboxLiveToken | Stage::Xsts { .. } => 1,
        Stage::XstsToken { .. } | Stage::Login { .. } => 2,
        Stage::LoginAnswer { .. } | Stage::Profile { .. } => 3,
        Stage::ProfileAnswer { .. } => 4,
    }
}

/// Whether all that `stage` holds for a session was brought by `events`, and the
/// services that come before it have accepted.
spec fn was_brought(endpoints: Endpoints, events: Seq<Event>, stage: Stage) -> bool {
    &&& forall|k: int|
        0 <= k < accepted_count(stage) ==> accepted_by(
            endpoints,
            events,
            #[trigger] services()[k],
        )
    &&& match stage {
        Stage::Login { xuid } | Stage::LoginAnswer { xuid } => xuid_is_from_xsts(
            endpoints,
            events,
            xuid,
        ),
        Stage::Profile { login, xuid } | Stage::ProfileAnswer { login, xuid } => {
            &&& xuid_is_from_xsts(endpoints, events, xuid)
            &&& login_is_answered(endpoints, events, login)
        },
        _ => true,
    }
}

/// What was brought stays brought when one more event happens.
proof fn lemma_brought_stays(endpoints: Endpoints, events: Seq<Event>, event: Event)
    ensures
        stage_before(endpoints, events.push(event), events.len() as int) == run(
            endpoints,
            Stage::XboxLive,
            events,
        ).0,
        forall|service: Service|
            accepted_by(endpoints, events, service) ==> #[trigger] accepted_by(
                endpoints,
                events.push(event),
                service,
            ),
        forall|xuid: Option<String>|
            xuid_is_from_xsts(endpoints, events, xuid) ==> #[trigger] xuid_is_from_xsts(
                endpoints,
                events.push(event),
                xuid,
            ),
        forall|login: MinecraftLogin|
            login_is_answered(endpoints, events, login) ==> #[trigger] login_is_answered(
                endpoints,
                events.push(event),
                login,
            ),
{
    let more = events.push(event);
    assert(more.take(events.len() as int) =~= events);
    assert forall|i: int| 0 <= i < events.len() implies #[trigger] more[i] == events[i]
        && stage_before(endpoints, more, i) == stage_before(endpoints, events, i) by {
        assert(more.take(i) =~= events.take(i));
    }
    assert forall|service: Service| accepted_by(endpoints, events, service) implies #[trigger]
        accepted_by(endpoints, more, service) by {
        let i = choose|i: int|
            0 <= i < events.len() && awaited(stage_before(endpoints, events, i)) == Some(service)
                && (#[trigger] events[i] matches Event::Status(status) && success(status@));
        assert(more[i] == events[i]);
    }
    assert forall|xuid: Option<String>|
        xuid_is_from_xsts(endpoints, events, xuid) implies #[trigger] xuid_is_from_xsts(
        endpoints,
        more,
        xuid,
    ) by {
        let i = choose|i: int|
            0 <= i < events.len() && stage_before(endpoints, events, i) is XstsToken && (
            #[trigger] events[i] matches Event::Token(xsts) && xuid == xsts.claimed_xuid());
        assert(more[i] == events[i]);
    }
    assert forall|login: MinecraftLogin|
        login_is_answered(endpoints, events, login) implies #[trigger] login_is_answered(
        endpoints,
        more,
        login,
    ) by {
        let i = choose|i: int|
            0 <= i < events.len() && stage_before(endpoints, events, i) is LoginAnswer
                && #[trigger] events[i] == Event::Login(login);
        assert(more[i] == events[i]);
    }
}

proof fn lemma_run_was_brought(endpoints: Endpoints, events: Seq<Event>)
    ensures
        was_brought(endpoints, events, run(endpoints, Stage::XboxLive, events).0),
    decreases events.len(),
{
    if events.len() > 0 {
        let earlier = events.drop_last();
        let event = events.last();
        lemma_run_was_brought(endpoints, earlier);
        lemma_brought_stays(endpoints, earlier, event);
        assert(earlier.push(event) =~= events);
        let stage = run(endpoints, Stage::XboxLive, earlier).0;
        let now = run(endpoints, Stage::XboxLive, events).0;
        assert(events[earlier.len() as int] == event);
        assert forall|k: int| 0 <= k < accepted_count(now) implies accepted_by(
            endpoints,
            events,
            #[trigger] services()[k],
        ) by {
            if k < accepted_count(stage) {
                assert(accepted_by(endpoints, earlier, services()[k]));
            }
        }
    }
}

/// Nothing of a session is made up. However a sign-in has gone, when it opens a
/// session each of the four services has accepted, the profile that names the
/// player has just come, the access token is what the Minecraft login answered,
/// and the Xbox id is that of the token with which XSTS answered.
pub proof fn law_session_is_what_was_brought(endpoints: Endpoints, events: Seq<Event>)
    ensures
        ({
            let actions = run(endpoints, Stage::XboxLive, events).1;
            actions.len() > 0 ==> (actions.last() matches ActionView::Open(draft) ==> {
                &&& forall|service: Service| #[trigger] accepted_by(endpoints, events, service)
                &&& events.last() matches Event::Profile(profile)
                &&& draft.username == profile.name
                &&& uuid_value(profile.id@) == Some(draft.uuid as nat)
                &&& exists|login: MinecraftLogin| #[trigger]
                    login_is_answered(endpoints, events, login) && draft.access_token
                        == login.access_token && draft.expires_in == login.expires_in
                &&& xuid_is_from_xsts(endpoints, events, draft.xuid)
            })
        }),
{
    if events.len() > 0 {
        let earlier = events.drop_last();
        let event = events.last();
        let stage = run(endpoints, Stage::XboxLive, earlier).0;
        lemma_run_was_brought(endpoints, earlier);
        lemma_brought_stays(endpoints, earlier, event);
        assert(earlier.push(event) =~= events);
        law_identity_is_the_servers(endpoints, stage, event);
        if next(endpoints, stage, event).1 is Open {
            assert forall|service: Service| #[trigger]
                accepted_by(endpoints, events, service) by {
                assert(services()[0] == Service::XboxLive);
                assert(services()[1] == Service::Xsts);
                assert(services()[2] == Service::Login);
                assert(services()[3] == Service::Profile);
                assert(accepted_by(endpoints, earlier, service));
            }
            if let Stage::ProfileAnswer { login, xuid } = stage {
                assert(login_is_answered(endpoints, events, login));
                assert(xuid_is_from_xsts(endpoints, events, xuid));
            }
        }
    }
}

/// The services that a sign-in has asked after `events`, in the order in which
/// it has asked them. The first is asked at the start; a request that an event
/// leads to goes to the service whose status is then waited for.
pub open spec fn asked(endpoints: Endpoints, events: Seq<Event>) -> Seq<Service>
    decreases events.len(),
{
    if events.len() == 0 {
        seq![Service::XboxLive]
    } else {
        let earlier = asked(endpoints, events.drop_last());
        let before = run(endpoints, Stage::XboxLive, events.drop_last()).0;
        let now = next(endpoints, before, events.last());
        if now.1 is Post || now.1 is Get {
            match awaited(now.0) {
                Some(service) => earlier.push(service),
                None => earlier,
            }
        } else {
            earlier
        }
    }
}

/// A request waits for the status of the service it goes to, and carries what
/// the exchange before it gave.
pub proof fn law_request_carries_what_was_given(endpoints: Endpoints, stage: Stage, event: Event)
    ensures
        ({
            let now = next(endpoints, stage, event);
            &&& now.1 matches ActionView::Post(request) ==> match (stage, event) {
                (Stage::XboxLiveToken, Event::Token(xbl)) => {
                    &&& now.0 == Stage::Xsts { xbl }
                    &&& request == xsts_request(endpoints, xbl)
                },
                (Stage::XstsToken { xbl }, Event::Token(xsts)) => {
                    &&& now.0 == Stage::Login { xuid: xsts.claimed_xuid() }
                    &&& session_hash(xsts, xbl) matches Some(user_hash)
                    &&& request == login_request(endpoints, user_hash, xsts)
                },
                _ => false,
            }
            &&& now.1 matches ActionView::Get(request) ==> match (stage, event) {
                (Stage::LoginAnswer { xuid }, Event::Login(login)) => {
                    &&& now.0 == Stage::Profile { login, xuid }
                    &&& request == profile_request(endpoints, login)
                },
                _ => false,
            }
        }),
{
}

/// How many services have been asked in `stage`, where it is not over.
spec fn asked_count(stage: Stage) -> int {
    match stage {
        Stage::XboxLive | Stage::XboxLiveToken => 1,
        Stage::Xsts { .. } | Stage::XstsToken { .. } => 2,
        Stage::Login { .. } | Stage::LoginAnswer { .. } => 3,
        _ => 4,
    }
}

/// However a sign-in goes, it asks each of the four services at most once, and
/// in their order: Xbox Live, XSTS, the Minecraft login, the profile.
pub proof fn law_services_are_asked_once_in_order(endpoints: Endpoints, events: Seq<Event>)
    ensures
        asked(endpoints, events).is_prefix_of(services()),
{
    lemma_asked(endpoints, events);
}

proof fn lemma_asked(endpoints: Endpoints, events: Seq<Event>)
    ensures
        asked(endpoints, events).is_prefix_of(services()),
        !is_over(run(endpoints, Stage::XboxLive, events).0) ==> asked(endpoints, events).len()
            == asked_count(run(endpoints, Stage::XboxLive, events).0),
    decreases events.len(),
{
    if events.len() == 0 {
        assert(seq![Service::XboxLive] =~= services().subrange(0, 1));
    } else {
        let earlier = events.drop_last();
        lemma_asked(endpoints, earlier);
        let before = asked(endpoints, earlier);
        let now = asked(endpoints, events);
        if now != before {
            assert(now =~= services().subrange(0, now.len() as int));
        }
    }
}

/// A status that does not accept turns the sign-in down, at whichever service
/// it comes.
pub proof fn law_refusal_is_the_end(endpoints: Endpoints, stage: Stage, status: HttpStatus)
    requires
        stage is XboxLive || stage is Xsts || stage is Login || stage is Profile,
        !success(status@),
    ensures
        is_over(next(endpoints, stage, Event::Status(status)).0),
        !goes_on(next(endpoints, stage, Event::Status(status)).1),
{
}

/// Once it has been turned down or is over, a sign-in sends no request and
/// opens no session, whatever happens.
pub proof fn law_nothing_follows_the_end(endpoints: Endpoints, stage: Stage, events: Seq<Event>)
    requires
        is_over(stage),
    ensures
        is_over(run(endpoints, stage, events).0),
        run(endpoints, stage, events).1.len() == events.len(),
        forall|i: int|
            0 <= i < events.len() ==> !goes_on(#[trigger] run(endpoints, stage, events).1[i]),
    decreases events.len(),
{
    if events.len() > 0 {
        law_nothing_follows_the_end(endpoints, stage, events.drop_last());
    }
}

/// A sign-in cannot go round in circles: an event changes nothing, or it leaves
/// fewer that can still be taken in. There are eight of them at the start.
pub proof fn law_every_event_counts_down(endpoints: Endpoints, stage: Stage, event: Event)
    ensures
        steps_left(Stage::XboxLive) == 8,
        next(endpoints, stage, event).1 is Ignore ==> next(endpoints, stage, event).0 == stage,
        next(endpoints, stage, event).1 !is Ignore ==> steps_left(
            next(endpoints, stage, event).0,
        ) < steps_left(stage),
{
}

/// A sign-in that fails or opens a session is over with it.
pub proof fn law_outcome_closes(endpoints: Endpoints, stage: Stage, event: Event)
    ensures
        next(endpoints, stage, event).1 is Fail || next(endpoints, stage, event).1 is Open ==> next(
            endpoints,
            stage,
            event,
        ).0 is Closed,
{
}

/// A refusal of XSTS always says something, also where its body could not be
/// read.
pub proof fn law_xsts_refusal_is_never_silent(error: Option<XstsError>)
    ensures
        xsts_refusal_message(error).len() > 0,
{
    reveal_strlit("ce compte Xbox Live a été suspendu");
    reveal_strlit(
        "ce compte Microsoft n'a pas de profil Xbox créez-en un sur xbox.com, puis réessayez",
    );
    reveal_strlit("Xbox Live n'est pas disponible dans le pays de ce compte");
    reveal_strlit("ce compte doit passer la vérification d'adulte (Corée du Sud)");
    reveal_strlit(
        "ce compte est un compte enfant : rattachez-le à une famille Microsoft, puis réessayez",
    );
    reveal_strlit(")");
}

/// A forbidden Minecraft login blames the application, and what is said holds
/// the address of the form that mends it.
pub proof fn law_forbidden_login_names_the_form()
    ensures
        login_decision(FORBIDDEN) == VerdictView::Refused(app_not_approved_message()),
        exists|i: int|
            0 <= i <= app_not_approved_message().len() - APP_REVIEW_FORM@.len()
                && #[trigger] app_not_approved_message().subrange(i, i + APP_REVIEW_FORM@.len())
                == APP_REVIEW_FORM@,
{
    let whole = app_not_approved_message();
    let head =
        "l'application n'est pas autorisée par Mojang à utiliser l'API Minecraft (403). Une déclaration Azure neuve doit être validée : formulaire sur "@;
    let at = head.len() as int;
    assert(whole.subrange(at, at + APP_REVIEW_FORM@.len()) =~= APP_REVIEW_FORM@);
}

// --- freshness --------------------------------------------------------------

/// A fresh token is good for the whole margin, and was fresh at every time
/// before; one that is stale stays so.
pub proof fn law_freshness_leaves_a_margin(now_ms: int, other_ms: int, expires_at_ms: int)
    ensures
        fresh_at(now_ms, expires_at_ms) && other_ms <= now_ms + EXPIRY_MARGIN_MS ==> other_ms
            <= expires_at_ms,
        fresh_at(now_ms, expires_at_ms) && other_ms <= now_ms ==> fresh_at(
            other_ms,
            expires_at_ms,
        ),
        !fresh_at(now_ms, expires_at_ms) && now_ms <= other_ms ==> !fresh_at(
            other_ms,
            expires_at_ms,
        ),
{
}

/// At one reading of the clock the expiry alone decides whether credentials are
/// fresh, as it does for a bare token: the tokens and the Xbox id do not count.
pub proof fn law_expiry_alone_decides(
    one: MicrosoftCredentials,
    other: MicrosoftCredentials,
    now_ms: u64,
)
    requires
        one.expires_at_ms == other.expires_at_ms,
    ensures
        one.good_at(now_ms) == other.good_at(now_ms),
        one.good_at(now_ms) == fresh_at(now_ms as int, one.expires_at_ms as int),
{
}

/// A session whose token lives for the margin or longer is fresh when it is
/// opened, and one whose token lives for less is not.
pub proof fn law_session_opens_fresh(draft: SessionDraft, now_ms: u64)
    ensures
        draft.opened_at(now_ms) matches Some(session) ==> (fresh_at(
            now_ms as int,
            session.expires_at_ms as int,
        ) <==> draft.expires_in * 1000 >= EXPIRY_MARGIN_MS),
{
}

/// When a session is opened changes nothing of it but its expiry.
pub proof fn law_clock_only_sets_the_expiry(draft: SessionDraft, now_ms: u64)
    ensures
        draft.opened_at(now_ms) matches Some(session) ==> {
            &&& session.uuid == draft.uuid
            &&& session.username == draft.username
            &&& session.access_token == draft.access_token
            &&& session.xuid == draft.xuid
            &&& session.expires_at_ms >= now_ms
        },
{
}

} // verus!
