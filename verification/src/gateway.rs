use crate::auth::AuthorizationPolicy;
use crate::dispatch::{is_privileged, outcome, route, settled, Effect, EffectView};
use crate::event::{
    CommandView, ConversationState, DownloadRequest, EventView, InboundEvent, StateView,
};
use crate::fetch::{FetchStage, FetchStageView};
use crate::router::Router;
use vstd::prelude::*;

verus! {

/// The gateway: the configuration, which never changes, and the router with
/// the state of every conversation. It decides what each message leads to
/// and performs nothing itself.
pub struct Gateway {
    policy: AuthorizationPolicy,
    destination_dir: String,
    router: Router,
}

impl Gateway {
    /// The authorization policy that the gateway was made with.
    pub closed spec fn policy(&self) -> AuthorizationPolicy {
        self.policy
    }

    /// The directory that downloads are stored in.
    pub closed spec fn destination(&self) -> Seq<char> {
        self.destination_dir@
    }

    /// The conversations seen so far, each with its state.
    pub closed spec fn sessions(&self) -> Map<Seq<char>, StateView> {
        self.router@
    }

    /// The state of a conversation, seen or not.
    pub open spec fn state_at(&self, id: Seq<char>) -> StateView {
        if self.sessions().dom().contains(id) {
            self.sessions()[id]
        } else {
            StateView::Start
        }
    }

    /// A gateway that has seen no conversation.
    pub fn new(policy: AuthorizationPolicy, destination_dir: &str) -> (gateway: Self)
        ensures
            gateway.policy() == policy,
            gateway.destination() == destination_dir@,
            gateway.sessions() == Map::<Seq<char>, StateView>::empty(),
    {
        Gateway { policy, destination_dir: destination_dir.to_owned(), router: Router::new() }
    }

    /// Whether `requester` may invoke the privileged commands.
    pub fn is_authorized(&self, requester: &str) -> (allowed: bool)
        ensures
            allowed == self.policy().permits(requester@),
    {
        self.policy.is_authorized(requester)
    }

    /// The state of conversation `id`.
    pub fn state_of(&self, id: &str) -> (state: ConversationState)
        ensures
            state@ == self.state_at(id@),
            !(state@ is Terminal),
    {
        self.router.state_of(id)
    }

    /// Handles one message. The policy is asked about the conversation that
    /// the message belongs to; the routing table then gives the effect and
    /// the conversation's next state. No other conversation is touched, and
    /// the configuration stays as it is.
    pub fn handle(&mut self, event: &InboundEvent) -> (effect: Effect)
        ensures
            effect@ == outcome(
                old(self).state_at(event.conversation_id@),
                event@,
                old(self).policy().permits(event.conversation_id@),
            ).1,
            final(self).sessions() == old(self).sessions().insert(
                event.conversation_id@,
                outcome(
                    old(self).state_at(event.conversation_id@),
                    event@,
                    old(self).policy().permits(event.conversation_id@),
                ).0,
            ),
            final(self).policy() == old(self).policy(),
            final(self).destination() == old(self).destination(),
            forall|other: Seq<char>|
                other != event.conversation_id@ ==> final(self).state_at(other) == old(
                    self,
                ).state_at(other),
            event@.command == Some(CommandView::Cancel) ==> final(self).state_at(
                event.conversation_id@,
            ) is Start,
            effect@ is Fetch ==> old(self).policy().permits(event.conversation_id@),
    {
        let authorized = self.policy.is_authorized(event.conversation_id.as_str());
        self.router.handle(event, authorized)
    }

    /// Begins the download of `request` into the gateway's directory.
    pub fn begin_fetch(&self, request: DownloadRequest) -> (stage: FetchStage)
        ensures
            stage@ == (FetchStageView::Resolve {
                request: request@,
                destination_dir: self.destination(),
            }),
    {
        FetchStage::start(request, self.destination_dir.as_str())
    }
}

/// Under a policy that lists identities, a conversation that is not listed
/// starts no download and prepares none, in whatever state it is and
/// whatever it sends; where it tries, it is answered with the denial and its
/// state stays as the message found it.
pub proof fn lemma_unlisted_never_fetches(
    policy: AuthorizationPolicy,
    state: StateView,
    event: EventView,
)
    requires
        !policy.is_open(),
        !policy.entries().contains(event.conversation_id),
    ensures
        !policy.permits(event.conversation_id),
        !(outcome(state, event, policy.permits(event.conversation_id)).1 is Fetch),
        !(outcome(state, event, policy.permits(event.conversation_id)).1 is SourceRecorded),
        is_privileged(route(state, event.command)) ==> outcome(
            state,
            event,
            policy.permits(event.conversation_id),
        ) == (settled(state), EffectView::PermissionDenied),
{
}

/// Under an open policy nobody is denied.
pub proof fn lemma_open_policy_denies_nobody(
    policy: AuthorizationPolicy,
    state: StateView,
    event: EventView,
)
    requires
        policy.is_open(),
    ensures
        policy.permits(event.conversation_id),
        !(outcome(state, event, policy.permits(event.conversation_id)).1 is PermissionDenied),
{
}

} // verus!
