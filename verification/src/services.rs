//! Connecting to and providing services.
//!
//! A component reaches the services of its environment under `/svc/<name>`.
//! A component that provides services keeps a list of factories, each of
//! which makes instances of one named service; a request for a name goes to
//! the first factory of the list (the last one added) that provides it.
//! `dispatch_request` decides what a request to a directory server that
//! only answers open and clone requests gets; the server itself, which
//! reads the requests from its channels and acts on the decision, is the
//! caller's part.
use vstd::prelude::*;
use vstd::utf8::{valid_utf8, decode_utf8};
use vstd::string::StringExecFns;

verus! {

/// The path under which the environment publishes the service `name`.
pub open spec fn service_path_of(name: Seq<char>) -> Seq<char> {
    seq!['/', 's', 'v', 'c', '/'] + name
}

/// The path to connect to the service `name` in the component's own
/// namespace: `/svc/<name>`.
pub fn service_path(name: &str) -> (path: String)
    ensures
        path@ == service_path_of(name@),
{
    let mut path = String::from_str("/svc/");
    proof {
        reveal_strlit("/svc/");
    }
    path.append(name);
    path
}

/// The startup handle on which the directory server was to start was
/// missing.
#[derive(Debug, Clone, Copy, PartialEq, Eq, Structural)]
pub struct MissingStartupHandle;

/// Makes instances of one named service.
pub trait ServiceFactory {
    /// The service instance made.
    type Stub;

    /// How many instances the factory has made.
    spec fn created(&self) -> nat;

    /// The name under which the service is provided.
    spec fn name(&self) -> Seq<char>;

    /// The name under which the service is provided.
    fn service_name(&self) -> (r: &str)
        ensures
            r@ == self.name(),
    ;

    /// Makes an instance of the service; the factory keeps its name.
    fn create(&mut self) -> (stub: Self::Stub)
        ensures
            final(self).created() == old(self).created() + 1,
            final(self).name() == old(self).name(),
    ;
}

/// Serves a made service instance on a channel.
pub trait ServiceLauncher<C> {
    /// How many instances the launcher has served.
    spec fn launched(&self) -> nat;

    /// Serves `stub` on `channel`.
    fn launch<S>(&mut self, stub: S, channel: C)
        ensures
            final(self).launched() == old(self).launched() + 1,
    ;
}

/// The position of the first name of `names` that equals `name`.
pub open spec fn first_match(names: Seq<Seq<char>>, name: Seq<char>) -> Option<nat>
    decreases names.len(),
{
    if names.len() == 0 {
        None
    } else if names[0] == name {
        Some(0)
    } else {
        match first_match(names.drop_first(), name) {
            Some(i) => Some(i + 1),
            None => None,
        }
    }
}

/// A position that `first_match` gives is a position of `names`.
pub proof fn lemma_first_match_in_range(names: Seq<Seq<char>>, name: Seq<char>)
    ensures
        first_match(names, name) matches Some(k) ==> k < names.len(),
    decreases names.len(),
{
    if names.len() > 0 && names[0] != name {
        lemma_first_match_in_range(names.drop_first(), name);
    }
}

/// A position of `first_match` as a `usize`, held at `usize::MAX` beyond it.
pub open spec fn position_of(p: Option<nat>) -> Option<usize> {
    match p {
        Some(i) => Some(if i < usize::MAX { i as usize } else { usize::MAX }),
        None => None,
    }
}

/// The creation counts after the factory at `made` (if any) made one more
/// instance.
pub open spec fn created_after(counts: Seq<nat>, made: Option<nat>) -> Seq<nat> {
    match made {
        Some(k) => counts.update(k as int, counts[k as int] + 1),
        None => counts,
    }
}

/// A list of service factories.
pub trait ServiceFactories {
    /// The names of the services, from the first factory of the list.
    spec fn service_names(&self) -> Seq<Seq<char>>;

    /// How many instances each factory has made, from the first factory of
    /// the list.
    spec fn created_counts(&self) -> Seq<nat>;

    /// There is one count for each name.
    proof fn lemma_counts_len(&self)
        ensures
            self.created_counts().len() == self.service_names().len(),
    ;

    /// Makes an instance of the service `service_name` with the first
    /// factory that provides it, and has `launcher` serve it on `channel`.
    /// Returns that factory's position in the list, or `None` when no
    /// factory provides the service (then nothing is made or launched).
    /// No other factory makes an instance, and the names stay.
    fn spawn_service<C, L: ServiceLauncher<C>>(
        &mut self,
        service_name: String,
        channel: C,
        launcher: &mut L,
    ) -> (r: Option<usize>)
        ensures
            r == position_of(first_match(old(self).service_names(), service_name@)),
            final(self).service_names() == old(self).service_names(),
            final(self).created_counts() == created_after(
                old(self).created_counts(),
                first_match(old(self).service_names(), service_name@),
            ),
            final(launcher).launched() == old(launcher).launched() + if r is Some {
                1nat
            } else {
                0nat
            },
    ;
}

/// A list of factories with `head` first and `tail` after it.
pub struct HCons<Head, Tail> {
    head: Head,
    tail: Tail,
}

/// The empty list of factories.
pub struct HNil;

impl ServiceFactories for HNil {
    open spec fn service_names(&self) -> Seq<Seq<char>> {
        Seq::empty()
    }

    open spec fn created_counts(&self) -> Seq<nat> {
        Seq::empty()
    }

    proof fn lemma_counts_len(&self) {
    }

    fn spawn_service<C, L: ServiceLauncher<C>>(
        &mut self,
        service_name: String,
        channel: C,
        launcher: &mut L,
    ) -> (r: Option<usize>) {
        None
    }
}

impl<Factory: ServiceFactory, Tail: ServiceFactories> ServiceFactories for HCons<Factory, Tail> {
    closed spec fn service_names(&self) -> Seq<Seq<char>> {
        seq![self.head.name()] + self.tail.service_names()
    }

    closed spec fn created_counts(&self) -> Seq<nat> {
        seq![self.head.created()] + self.tail.created_counts()
    }

    proof fn lemma_counts_len(&self) {
        self.tail.lemma_counts_len();
    }

    fn spawn_service<C, L: ServiceLauncher<C>>(
        &mut self,
        service_name: String,
        channel: C,
        launcher: &mut L,
    ) -> (r: Option<usize>) {
        let ghost names = old(self).service_names();
        proof {
            assert(names.drop_first() =~= old(self).tail.service_names());
        }
        let head_name = self.head.service_name().to_owned();
        if service_name == head_name {
            let stub = self.head.create();
            launcher.launch(stub, channel);
            Some(0)
        } else {
            let ghost name = service_name@;
            let ghost old_counts = old(self).created_counts();
            let ghost tail_counts = old(self).tail.created_counts();
            let r = self.tail.spawn_service(service_name, channel, launcher);
            proof {
                assert(old_counts.drop_first() =~= tail_counts);
                let ghost tail_match = first_match(old(self).tail.service_names(), name);
                old(self).tail.lemma_counts_len();
                lemma_first_match_in_range(old(self).tail.service_names(), name);
                assert(self.created_counts() =~= seq![self.head.created()] + self.tail.created_counts());
                assert(names[0] != name);
                assert(self.head.created() == old_counts[0]);
                match tail_match {
                    Some(k) => {
                        assert(first_match(names, name) == Some(k + 1));
                        assert(self.created_counts() =~= old_counts.update(k + 1 as int, old_counts[k + 1 as int] + 1));
                    },
                    None => {
                        assert(first_match(names, name) is None);
                        assert(self.created_counts() =~= old_counts);
                    },
                }
            }
            match r {
                Some(i) => Some(i.saturating_add(1)),
                None => None,
            }
        }
    }
}

impl<Head: ServiceFactory, Tail> HCons<Head, Tail> {
    /// The list with `head` first and `tail` after it.
    fn new(head: Head, tail: Tail) -> (r: HCons<Head, Tail>)
        ensures
            r.head() == head,
            r.tail() == tail,
    {
        HCons { head, tail }
    }
}

impl<Head, Tail> HCons<Head, Tail> {
    /// The first factory.
    pub closed spec fn head(&self) -> Head {
        self.head
    }

    /// The factories after the first.
    pub closed spec fn tail(&self) -> Tail {
        self.tail
    }
}

impl<Factory: ServiceFactory, Tail: ServiceFactories> HCons<Factory, Tail> {
    /// The names of a list with a first factory: its name, then the names
    /// of the rest.
    pub proof fn lemma_names(&self)
        ensures
            self.service_names() == seq![self.head().name()] + self.tail().service_names(),
    {
    }
}

/// Manufactures service instances of varying types on demand.
pub struct ServicesServer<Services> {
    services: Services,
}

impl<Services> ServicesServer<Services> {
    /// The factories of the server.
    pub closed spec fn factories(&self) -> Services {
        self.services
    }
}

impl ServicesServer<HNil> {
    /// A server that provides no service.
    pub fn new() -> (r: ServicesServer<HNil>)
        ensures
            r.factories().service_names() == Seq::<Seq<char>>::empty(),
    {
        ServicesServer { services: HNil }
    }

    /// Spawns an instance of the service `service_name`: there is none, so
    /// nothing is launched.
    pub fn spawn_service<C, L: ServiceLauncher<C>>(
        &mut self,
        service_name: String,
        channel: C,
        launcher: &mut L,
    ) -> (r: Option<usize>)
        ensures
            r.is_none(),
            final(launcher).launched() == old(launcher).launched(),
    {
        self.services.spawn_service(service_name, channel, launcher)
    }
}

impl<Services: ServiceFactories> ServicesServer<Services> {
    /// A server with the given list of factories.
    pub fn new_with_factories(services: Services) -> (r: ServicesServer<Services>)
        ensures
            r.factories() == services,
    {
        ServicesServer { services }
    }

    /// The server's factories, to serve requests with.
    pub fn into_factories(self) -> (r: Services)
        ensures
            r == self.factories(),
    {
        self.services
    }

    /// Adds a service: its factory comes first in the new server's list.
    pub fn add_service<S: ServiceFactory>(self, service_factory: S) -> (r: ServicesServer<
        HCons<S, Services>,
    >)
        ensures
            r.factories().head() == service_factory,
            r.factories().tail() == self.factories(),
            r.factories().service_names() == seq![service_factory.name()]
                + self.factories().service_names(),
    {
        let services = HCons::new(service_factory, self.services);
        proof {
            services.lemma_names();
        }
        ServicesServer { services }
    }
}

/// A service added last is the one that a request for its factory's name
/// reaches, whatever the list held before (an earlier factory of the same
/// name is shadowed); a request for another name goes on to the list as it
/// was, one position further.
pub proof fn law_last_added_serves<S: ServiceFactory, Services: ServiceFactories>(
    list: HCons<S, Services>,
    name: Seq<char>,
)
    ensures
        name == list.head().name() ==> first_match(list.service_names(), name)
            == Some(0nat),
        name != list.head().name() ==> first_match(list.service_names(), name)
            == match first_match(list.tail().service_names(), name) {
            Some(i) => Some(i + 1),
            None => None::<nat>,
        },
{
    list.lemma_names();
    assert(list.service_names().drop_first() =~= list.tail().service_names());
}

/// A server without factories serves no name.
pub proof fn law_empty_serves_nothing(name: Seq<char>)
    ensures
        first_match(HNil.service_names(), name) is None,
{
}

/// The kind of a directory request, as far as the server reads it.
#[derive(Clone, Copy, Debug, PartialEq, Eq, Structural)]
pub enum RequestOp {
    /// Open a path; the request carries the channel to serve it on.
    Open,
    /// Clone the connection; the request carries the new channel.
    Clone,
    /// Any other request.
    Other,
}

/// What a directory request gets.
#[derive(Debug)]
pub enum DispatchAction {
    /// An invalid or unsupported request: nothing is sent back.
    Ignore,
    /// An invalid or unsupported request that asked to be described: the
    /// error `status` is sent back, on the channel that the request carried
    /// when `on_reply_channel`, else on the channel it came on.
    ReplyError { status: i32, on_reply_channel: bool },
    /// A clone request: the channel that it carried is served as well.
    ServeClone,
    /// An open request: the channel that it carried is connected to a new
    /// instance of the service named `path`.
    OpenService { path: String },
}

/// The status of an operation that is not supported.
pub const ZX_ERR_NOT_SUPPORTED: i32 = -2i32;

/// The request carries a reply channel that the server took: only open and
/// clone requests carry one.
pub open spec fn has_reply(op: RequestOp, carried_channel: bool) -> bool {
    carried_channel && (op == RequestOp::Open || op == RequestOp::Clone)
}

/// The server turns the request down: it is invalid, neither an open nor a
/// clone, carries no reply channel, or is a clone that asks to be
/// described. A valid open that carries its channel is served whether or
/// not it asks to be described: an open always connects its channel.
pub open spec fn request_refused(
    op: RequestOp,
    invalid: Option<i32>,
    describe: bool,
    carried_channel: bool,
) -> bool {
    ||| invalid is Some
    ||| !(op == RequestOp::Open || op == RequestOp::Clone)
    ||| !has_reply(op, carried_channel)
    ||| (describe && op == RequestOp::Clone)
}

/// What the server's next look at its channels found.
#[derive(Clone, Copy, Debug, PartialEq, Eq, Structural)]
pub enum ChannelEvent {
    /// A message arrived on one of the channels.
    Message,
    /// Reading a channel failed.
    ReadError,
    /// No message is ready, or no channel is left to read.
    Idle,
}

/// What the server does next.
#[derive(Clone, Copy, Debug, PartialEq, Eq, Structural)]
pub enum ServerStep {
    /// Dispatch the message, read the channel again, and look again.
    DispatchAndRearm,
    /// Ignore the failure (the channel is still read from) and look again.
    LookAgain,
    /// Wait to be polled again.
    Pending,
}

/// The server's step on what a look at its channels found: it dispatches
/// each message and keeps reading that channel, passes over read errors,
/// and waits when nothing is ready; it never finishes.
pub fn server_step(event: ChannelEvent) -> (step: ServerStep)
    ensures
        step == match event {
            ChannelEvent::Message => ServerStep::DispatchAndRearm,
            ChannelEvent::ReadError => ServerStep::LookAgain,
            ChannelEvent::Idle => ServerStep::Pending,
        },
{
    match event {
        ChannelEvent::Message => ServerStep::DispatchAndRearm,
        ChannelEvent::ReadError => ServerStep::LookAgain,
        ChannelEvent::Idle => ServerStep::Pending,
    }
}

/// A request is turned down whenever validating it failed, it is neither an
/// open nor a clone, or it carries no channel to serve; and a valid open or
/// clone that carries its channel is served, except a clone that asks to be
/// described.
pub proof fn law_refusals(op: RequestOp, invalid: Option<i32>, describe: bool, carried_channel: bool)
    ensures
        invalid is Some ==> request_refused(op, invalid, describe, carried_channel),
        op == RequestOp::Other ==> request_refused(op, invalid, describe, carried_channel),
        !carried_channel ==> request_refused(op, invalid, describe, carried_channel),
        invalid is None && carried_channel && op == RequestOp::Open
            ==> !request_refused(op, invalid, describe, carried_channel),
        invalid is None && carried_channel && op == RequestOp::Clone
            ==> (request_refused(op, invalid, describe, carried_channel) == describe),
{
}

/// `std::str::from_utf8`: `Some` exactly when `bytes` are valid UTF-8, and
/// then the text that they encode.
#[verifier::external_body]
fn str_from_utf8(bytes: &[u8]) -> (r: Option<&str>)
    ensures
        r is Some <==> valid_utf8(bytes@),
        r matches Some(s) ==> s@ == decode_utf8(bytes@),
{
    std::str::from_utf8(bytes).ok()
}

/// Decides what a directory request gets. `op` is its kind, `invalid` the
/// error status that validating it gave (`None` when it is valid),
/// `describe` whether it asks to be described, `carried_channel` whether
/// the server took a reply channel from it, and `data` its payload, the
/// path of an open request. An open request connects the channel that it
/// carried to the service it names, and must name it in UTF-8; a clone
/// request that does not ask to be described has its channel served; other
/// requests are refused, with an error reply when they ask to be described.
pub fn dispatch_request(
    op: RequestOp,
    invalid: Option<i32>,
    describe: bool,
    carried_channel: bool,
    data: &[u8],
) -> (action: DispatchAction)
    requires
        !request_refused(op, invalid, describe, carried_channel) && op == RequestOp::Open
            ==> valid_utf8(data@),
    ensures
        invalid is Some ==> (action is Ignore || action is ReplyError),
        op == RequestOp::Other ==> (action is Ignore || action is ReplyError),
        !carried_channel ==> (action is Ignore || action is ReplyError),
        action is ServeClone ==> op == RequestOp::Clone && invalid is None && carried_channel
            && !describe,
        action is OpenService ==> op == RequestOp::Open && invalid is None && carried_channel,
        action is ReplyError <==> describe && !(action is OpenService || action is ServeClone),
        match action {
            DispatchAction::Ignore => request_refused(op, invalid, describe, carried_channel)
                && !describe,
            DispatchAction::ReplyError { status, on_reply_channel } => {
                &&& request_refused(op, invalid, describe, carried_channel)
                &&& describe
                &&& status == match invalid {
                    Some(e) => e,
                    None => ZX_ERR_NOT_SUPPORTED,
                }
                &&& on_reply_channel == has_reply(op, carried_channel)
            },
            DispatchAction::ServeClone => !request_refused(op, invalid, describe, carried_channel)
                && op == RequestOp::Clone,
            DispatchAction::OpenService { path } => {
                &&& !request_refused(op, invalid, describe, carried_channel)
                &&& op == RequestOp::Open
                &&& path@ == decode_utf8(data@)
            },
        },
{
    let open_or_clone = op == RequestOp::Open || op == RequestOp::Clone;
    let reply = carried_channel && open_or_clone;
    if invalid.is_some() || !open_or_clone || !reply || (describe && op == RequestOp::Clone) {
        if describe {
            let status = match invalid {
                Some(e) => e,
                None => ZX_ERR_NOT_SUPPORTED,
            };
            return DispatchAction::ReplyError { status, on_reply_channel: reply };
        }
        return DispatchAction::Ignore;
    }
    if op == RequestOp::Clone {
        return DispatchAction::ServeClone;
    }
    match str_from_utf8(data) {
        Some(text) => DispatchAction::OpenService { path: text.to_owned() },
        None => {
            proof {
                assert(false);
            }
            DispatchAction::Ignore
        },
    }
}

} // verus!
