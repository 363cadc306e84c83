//! The resolution as a sequence of steps.
//!
//! A resolution sends nothing itself. It tells its driver what to do next,
//! and the driver comes back with what happened. Every decision on the way
//! from a request to a link is taken here.
use crate::consumer::{ConsumerLanguage, ConsumerRelease};
use crate::enterprise::{EnterpriseLanguage, EnterpriseRelease};
use crate::entry::{WindowsData, WindowsEntry};
use crate::error::RidoError;
use crate::evalcenter::{extract_labelled_link, extract_positional_link, labelled_link_in, positional_link_in};
use crate::link::{body_check, check_body, extract_download_link, link_in_page, listed_link, select_download_url};
use crate::number::{decimal, decimal_text};
use crate::product::{extract_product_id, product_id_of};
use crate::request::{catalog_request, evalcenter_request, link_request, optional_string_text, probe_request, sku_request, HttpRequest, HttpRequestView, ResponseFormat};
use crate::session::SessionContext;
use crate::sku::{extract_sku_id, find_sku, referer_for, referer_text, sku_id_in_page, sku_index, WindowsSku};
use crate::text::string_of;
use crate::windows::{WindowsLanguage, WindowsRelease};
use vstd::prelude::*;

verus! {

/// A kind of document that the newer endpoints answer with.
#[derive(Debug, Clone, Copy, PartialEq, Eq, Structural)]
pub enum Document {
    /// The stock-keeping units of a product.
    Skus,
    /// The download options of a stock-keeping unit.
    Links,
}

/// How far a resolution has come.
#[derive(Debug, Clone, PartialEq, Eq)]
pub enum Stage {
    /// Nothing is known yet; the release's page has been asked for.
    NotStarted,
    /// The product number is known; the probe has been sent.
    ProductResolved(String),
    /// The probe has been answered; the stock-keeping units of the product
    /// have been asked for.
    Probed(String),
    /// The stock-keeping unit is known; its links have been asked for.
    SkuResolved(String),
    /// The link is known, and the hash if the reply held one.
    LinkResolved(String, Option<String>),
    /// The resolution has failed.
    Failed(RidoError),
}

/// A stage, with texts in place of strings.
pub enum StageView {
    NotStarted,
    ProductResolved(Seq<char>),
    Probed(Seq<char>),
    SkuResolved(Seq<char>),
    LinkResolved(Seq<char>, Option<Seq<char>>),
    Failed(RidoError),
}

impl View for Stage {
    type V = StageView;

    open spec fn view(&self) -> StageView {
        match self {
            Stage::NotStarted => StageView::NotStarted,
            Stage::ProductResolved(id) => StageView::ProductResolved(id@),
            Stage::Probed(id) => StageView::Probed(id@),
            Stage::SkuResolved(id) => StageView::SkuResolved(id@),
            Stage::LinkResolved(url, hash) => StageView::LinkResolved(
                url@,
                optional_string_text(*hash),
            ),
            Stage::Failed(e) => StageView::Failed(*e),
        }
    }
}

/// What the driver is to do next.
#[derive(Debug, Clone, PartialEq, Eq)]
pub enum Action {
    /// Send the request and come back with the body of the reply.
    Send(HttpRequest),
    /// Decode the text as a document of the given kind and come back with
    /// what it holds.
    Decode(Document, String),
    /// Nothing: the resolution has ended.
    Finish,
}

/// An action, with texts in place of strings.
pub enum ActionView {
    Send(HttpRequestView),
    Decode(Document, Seq<char>),
    Finish,
}

impl View for Action {
    type V = ActionView;

    open spec fn view(&self) -> ActionView {
        match self {
            Action::Send(request) => ActionView::Send(request@),
            Action::Decode(kind, text) => ActionView::Decode(*kind, text@),
            Action::Finish => ActionView::Finish,
        }
    }
}

/// What the driver comes back with.
#[derive(Debug, Clone, PartialEq, Eq)]
pub enum Event {
    /// The body of the reply to the request.
    Body(String),
    /// The stock-keeping units that the document held.
    Skus(Vec<WindowsSku>),
    /// The addresses of the download options that the document held.
    Links(Vec<String>),
    /// The text was no document of the kind; the decoder's message.
    DecodeFailed(String),
    /// The request could not be carried out; the transport's message.
    TransportFailed(String),
}

/// One resolution: the request, the generation of endpoints it talks to, the
/// identity it presents, and how far it has come.
#[derive(Debug, Clone, PartialEq, Eq)]
pub struct Resolution {
    pub entry: WindowsEntry,
    pub format: ResponseFormat,
    pub session: SessionContext,
    pub stage: Stage,
}

/// A resolution, with texts in place of strings.
pub struct ResolutionView {
    pub entry: WindowsEntry,
    pub format: ResponseFormat,
    pub user_agent: Seq<char>,
    pub session_id: Seq<char>,
    pub stage: StageView,
}

impl View for Resolution {
    type V = ResolutionView;

    open spec fn view(&self) -> ResolutionView {
        ResolutionView {
            entry: self.entry,
            format: self.format,
            user_agent: self.session.user_agent@,
            session_id: self.session.session_id@,
            stage: self.stage@,
        }
    }
}

/// The place of a stage on the way. A resolution never moves to a stage of a
/// lower place.
pub open spec fn rank(stage: StageView) -> int {
    match stage {
        StageView::NotStarted => 0,
        StageView::ProductResolved(_) => 1,
        StageView::Probed(_) => 2,
        StageView::SkuResolved(_) => 3,
        StageView::LinkResolved(_, _) => 4,
        StageView::Failed(_) => 4,
    }
}

/// The resolution has ended, with a link or with an error.
pub open spec fn is_terminal(stage: StageView) -> bool {
    stage is LinkResolved || stage is Failed
}

/// The stage that a found link ends a resolution with. A link is never
/// empty: where the text that was found is empty, nothing was found, and the
/// resolution fails with the error `missing`.
pub open spec fn ended(url: Seq<char>, hash: Option<Seq<char>>, missing: RidoError) -> StageView {
    if url.len() > 0 {
        StageView::LinkResolved(url, hash)
    } else {
        StageView::Failed(missing)
    }
}

/// The stage that ends a resolution, for what a page of links gave.
pub open spec fn link_stage(found: Result<(Seq<char>, Option<Seq<char>>), RidoError>) -> StageView {
    match found {
        Ok((url, hash)) => ended(url, hash, RidoError::HTMLParse),
        Err(e) => StageView::Failed(e),
    }
}

/// The step of a resolution for a consumer release that is under way.
pub open spec fn consumer_step(
    state: ResolutionView,
    release: ConsumerRelease,
    lang: ConsumerLanguage,
    event: Event,
) -> (StageView, ActionView) {
    match state.stage {
        StageView::NotStarted => match event {
            Event::Body(page) => match product_id_of(page@) {
                Some(id) => (
                    StageView::ProductResolved(id),
                    ActionView::Send(probe_request(state.user_agent, state.session_id)),
                ),
                None => (StageView::Failed(RidoError::ProductID), ActionView::Finish),
            },
            _ => (StageView::Failed(RidoError::ProductID), ActionView::Finish),
        },
        StageView::ProductResolved(id) => (
            StageView::Probed(id),
            ActionView::Send(
                sku_request(state.format, release, id, state.user_agent, state.session_id),
            ),
        ),
        StageView::Probed(id) => match event {
            Event::Body(page) => match state.format {
                ResponseFormat::Legacy => match sku_id_in_page(page@, lang.display_text()) {
                    Some(sku) => (
                        StageView::SkuResolved(sku),
                        ActionView::Send(
                            link_request(
                                state.format,
                                release,
                                sku,
                                release.catalog_url_text(),
                                state.user_agent,
                                state.session_id,
                            ),
                        ),
                    ),
                    None => (StageView::Failed(RidoError::SKUID), ActionView::Finish),
                },
                ResponseFormat::Current => (
                    StageView::Probed(id),
                    ActionView::Decode(Document::Skus, page@),
                ),
            },
            Event::Skus(list) => match sku_index(list@, lang.display_text()) {
                Some(i) => (
                    StageView::SkuResolved(list@[i].id@),
                    ActionView::Send(
                        link_request(
                            state.format,
                            release,
                            list@[i].id@,
                            referer_text(release, list@[i].product_display_name@),
                            state.user_agent,
                            state.session_id,
                        ),
                    ),
                ),
                None => (StageView::Failed(RidoError::SKUID), ActionView::Finish),
            },
            _ => (StageView::Failed(RidoError::SKUID), ActionView::Finish),
        },
        StageView::SkuResolved(sku) => match event {
            Event::Body(page) => match state.format {
                ResponseFormat::Legacy => (
                    link_stage(link_in_page(page@, state.entry.arch, lang.display_text())),
                    ActionView::Finish,
                ),
                ResponseFormat::Current => match body_check(page@) {
                    Ok(_) => (StageView::SkuResolved(sku), ActionView::Decode(Document::Links, page@)),
                    Err(e) => (StageView::Failed(e), ActionView::Finish),
                },
            },
            Event::Links(list) => match listed_link(list@, state.entry.arch) {
                Ok(url) => (ended(url, None, RidoError::URL), ActionView::Finish),
                Err(e) => (StageView::Failed(e), ActionView::Finish),
            },
            _ => (StageView::Failed(RidoError::URL), ActionView::Finish),
        },
        _ => (state.stage, ActionView::Finish),
    }
}

/// The step of a resolution for an enterprise release that is under way:
/// the one reply it waits for is the release's page.
pub open spec fn enterprise_step(
    state: ResolutionView,
    release: EnterpriseRelease,
    lang: EnterpriseLanguage,
    event: Event,
) -> (StageView, ActionView) {
    match event {
        Event::Body(page) => match state.format {
            ResponseFormat::Legacy => match positional_link_in(
                page@,
                release,
                lang,
                state.entry.arch,
            ) {
                Ok(link) => (ended(link.0, None, RidoError::HTMLParse), ActionView::Finish),
                Err(e) => (StageView::Failed(e), ActionView::Finish),
            },
            ResponseFormat::Current => match labelled_link_in(
                page@,
                release,
                lang,
                state.entry.arch,
            ) {
                Ok(url) => (ended(url, None, RidoError::HTMLParse), ActionView::Finish),
                Err(e) => (StageView::Failed(e), ActionView::Finish),
            },
        },
        _ => (StageView::Failed(RidoError::HTMLParse), ActionView::Finish),
    }
}

/// The step of a resolution: the stage it moves to and what the driver is to
/// do next. A resolution that has ended stays as it is. One whose request the
/// rules refuse fails with their error. A failure of the transport or of the
/// decoder fails the resolution with its message. Every other event is
/// judged by the stage it arrives at.
pub open spec fn next(state: ResolutionView, event: Event) -> (StageView, ActionView) {
    if is_terminal(state.stage) {
        (state.stage, ActionView::Finish)
    } else {
        match state.entry.check() {
            Err(e) => (StageView::Failed(e), ActionView::Finish),
            Ok(_) => match event {
                Event::TransportFailed(message) => (
                    StageView::Failed(RidoError::Reqwest(message)),
                    ActionView::Finish,
                ),
                Event::DecodeFailed(message) => (
                    StageView::Failed(RidoError::JSONParsing(message)),
                    ActionView::Finish,
                ),
                _ => match (state.entry.release, state.entry.lang) {
                    (WindowsRelease::Consumer(release), WindowsLanguage::Consumer(lang)) => consumer_step(
                        state,
                        release,
                        lang,
                        event,
                    ),
                    (
                        WindowsRelease::Enterprise(release),
                        WindowsLanguage::Enterprise(lang),
                    ) => enterprise_step(state, release, lang, event),
                    _ => (StageView::Failed(RidoError::InvalidSelection), ActionView::Finish),
                },
            },
        }
    }
}

/// The first stage of a resolution and the first thing for the driver to do.
/// A request that the rules refuse fails at once and nothing is sent. A
/// product given by its number needs no catalogue page: the resolution
/// starts with the probe.
pub open spec fn start(
    entry: WindowsEntry,
    format: ResponseFormat,
    user_agent: Seq<char>,
    session_id: Seq<char>,
) -> (StageView, ActionView) {
    match entry.check() {
        Err(e) => (StageView::Failed(e), ActionView::Finish),
        Ok(_) => match entry.release {
            WindowsRelease::Consumer(ConsumerRelease::CustomProductID(id)) => (
                StageView::ProductResolved(decimal_text(id as nat)),
                ActionView::Send(probe_request(user_agent, session_id)),
            ),
            WindowsRelease::Consumer(release) => (
                StageView::NotStarted,
                ActionView::Send(catalog_request(release, user_agent)),
            ),
            WindowsRelease::Enterprise(release) => (
                StageView::NotStarted,
                ActionView::Send(evalcenter_request(release)),
            ),
        },
    }
}

/// A resolved request, with texts in place of strings.
pub open spec fn outcome_of(state: ResolutionView) -> Option<
    Result<(WindowsEntry, Seq<char>, Option<Seq<char>>), RidoError>,
> {
    match state.stage {
        StageView::LinkResolved(url, hash) => Some(Ok((state.entry, url, hash))),
        StageView::Failed(e) => Some(Err(e)),
        _ => None,
    }
}

/// What a resolution that has ended hands out, as texts.
pub open spec fn outcome_view(r: Option<Result<WindowsData, RidoError>>) -> Option<
    Result<(WindowsEntry, Seq<char>, Option<Seq<char>>), RidoError>,
> {
    match r {
        Some(Ok(data)) => Some(Ok((data.info, data.url@, optional_string_text(data.hash)))),
        Some(Err(e)) => Some(Err(e)),
        None => None,
    }
}

impl Resolution {
    /// Starts a resolution.
    pub fn begin(entry: WindowsEntry, format: ResponseFormat, session: SessionContext) -> (r: (
        Resolution,
        Action,
    ))
        ensures
            r.0.entry == entry,
            r.0.format == format,
            r.0.session == session,
            (r.0.stage@, r.1@) == start(entry, format, session.user_agent@, session.session_id@),
    {
        match entry.validate() {
            Err(e) => (Resolution { entry, format, session, stage: Stage::Failed(e) }, Action::Finish),
            Ok(_) => match entry.release {
                WindowsRelease::Consumer(ConsumerRelease::CustomProductID(id)) => {
                    let action = Action::Send(HttpRequest::probe(&session));
                    let stage = Stage::ProductResolved(string_of(&decimal(id as u64)));
                    (Resolution { entry, format, session, stage }, action)
                },
                WindowsRelease::Consumer(release) => {
                    let action = Action::Send(HttpRequest::catalog(release, &session));
                    (Resolution { entry, format, session, stage: Stage::NotStarted }, action)
                },
                WindowsRelease::Enterprise(release) => {
                    let action = Action::Send(HttpRequest::evalcenter(release));
                    (Resolution { entry, format, session, stage: Stage::NotStarted }, action)
                },
            },
        }
    }

    /// Takes the resolution one step on, with what the driver came back
    /// with.
    pub fn step(self, event: Event) -> (r: (Resolution, Action))
        ensures
            r.0.entry == self.entry,
            r.0.format == self.format,
            r.0.session == self.session,
            (r.0.stage@, r.1@) == next(self@, event),
    {
        let Resolution { entry, format, session, stage } = self;
        match stage {
            Stage::LinkResolved(url, hash) => {
                return (
                    Resolution { entry, format, session, stage: Stage::LinkResolved(url, hash) },
                    Action::Finish,
                );
            },
            Stage::Failed(e) => {
                return (Resolution { entry, format, session, stage: Stage::Failed(e) }, Action::Finish);
            },
            _ => {},
        }
        match entry.validate() {
            Err(e) => {
                return (Resolution { entry, format, session, stage: Stage::Failed(e) }, Action::Finish);
            },
            Ok(_) => {},
        }
        let (stage, action) = match event {
            Event::TransportFailed(message) => (
                Stage::Failed(RidoError::Reqwest(message)),
                Action::Finish,
            ),
            Event::DecodeFailed(message) => (
                Stage::Failed(RidoError::JSONParsing(message)),
                Action::Finish,
            ),
            event => match (entry.release, entry.lang) {
                (WindowsRelease::Consumer(release), WindowsLanguage::Consumer(lang)) => step_consumer(
                    &entry,
                    format,
                    &session,
                    stage,
                    release,
                    lang,
                    event,
                ),
                (WindowsRelease::Enterprise(release), WindowsLanguage::Enterprise(lang)) => step_enterprise(
                    &entry,
                    format,
                    release,
                    lang,
                    event,
                ),
                _ => (Stage::Failed(RidoError::InvalidSelection), Action::Finish),
            },
        };
        (Resolution { entry, format, session, stage }, action)
    }

    /// What the resolution has come to, once it has ended.
    pub fn finish(self) -> (r: Option<Result<WindowsData, RidoError>>)
        ensures
            outcome_view(r) == outcome_of(self@),
    {
        match self.stage {
            Stage::LinkResolved(url, hash) => Some(Ok(WindowsData { info: self.entry, url, hash })),
            Stage::Failed(e) => Some(Err(e)),
            _ => None,
        }
    }
}

/// The state that the parts of a resolution make up.
pub open spec fn state_of(
    entry: WindowsEntry,
    format: ResponseFormat,
    session: SessionContext,
    stage: Stage,
) -> ResolutionView {
    ResolutionView {
        entry,
        format,
        user_agent: session.user_agent@,
        session_id: session.session_id@,
        stage: stage@,
    }
}

/// The stage that a found link ends a resolution with.
fn end_with(url: String, hash: Option<String>, missing: RidoError) -> (r: Stage)
    ensures
        r@ == ended(url@, optional_string_text(hash), missing),
{
    if url.as_str().is_empty() {
        Stage::Failed(missing)
    } else {
        Stage::LinkResolved(url, hash)
    }
}

/// The step of a resolution for a consumer release that is under way.
fn step_consumer(
    entry: &WindowsEntry,
    format: ResponseFormat,
    session: &SessionContext,
    stage: Stage,
    release: ConsumerRelease,
    lang: ConsumerLanguage,
    event: Event,
) -> (r: (Stage, Action))
    ensures
        (r.0@, r.1@) == consumer_step(
            state_of(*entry, format, *session, stage),
            release,
            lang,
            event,
        ),
{
    match stage {
        Stage::NotStarted => match event {
            Event::Body(page) => match extract_product_id(page.as_str()) {
                Ok(id) => (Stage::ProductResolved(id), Action::Send(HttpRequest::probe(session))),
                Err(_) => (Stage::Failed(RidoError::ProductID), Action::Finish),
            },
            _ => (Stage::Failed(RidoError::ProductID), Action::Finish),
        },
        Stage::ProductResolved(id) => {
            let request = HttpRequest::skus(format, release, id.as_str(), session);
            (Stage::Probed(id), Action::Send(request))
        },
        Stage::Probed(id) => match event {
            Event::Body(page) => match format {
                ResponseFormat::Legacy => match extract_sku_id(page.as_str(), lang.name()) {
                    Ok(sku) => {
                        let request = HttpRequest::links(
                            format,
                            release,
                            sku.as_str(),
                            String::from_str(release.catalog_url()),
                            session,
                        );
                        (Stage::SkuResolved(sku), Action::Send(request))
                    },
                    Err(_) => (Stage::Failed(RidoError::SKUID), Action::Finish),
                },
                ResponseFormat::Current => (Stage::Probed(id), Action::Decode(Document::Skus, page)),
            },
            Event::Skus(list) => match find_sku(&list, lang.name()) {
                Ok(i) => {
                    let sku = list[i].id.clone();
                    let referer = referer_for(release, list[i].product_display_name.as_str());
                    let request = HttpRequest::links(format, release, sku.as_str(), referer, session);
                    (Stage::SkuResolved(sku), Action::Send(request))
                },
                Err(_) => (Stage::Failed(RidoError::SKUID), Action::Finish),
            },
            _ => (Stage::Failed(RidoError::SKUID), Action::Finish),
        },
        Stage::SkuResolved(sku) => match event {
            Event::Body(page) => match format {
                ResponseFormat::Legacy => match extract_download_link(
                    page.as_str(),
                    entry.arch,
                    lang.name(),
                ) {
                    Ok((url, hash)) => (end_with(url, hash, RidoError::HTMLParse), Action::Finish),
                    Err(e) => (Stage::Failed(e), Action::Finish),
                },
                ResponseFormat::Current => match check_body(page.as_str()) {
                    Ok(_) => (Stage::SkuResolved(sku), Action::Decode(Document::Links, page)),
                    Err(e) => (Stage::Failed(e), Action::Finish),
                },
            },
            Event::Links(list) => match select_download_url(&list, entry.arch) {
                Ok(url) => (end_with(url, None, RidoError::URL), Action::Finish),
                Err(e) => (Stage::Failed(e), Action::Finish),
            },
            _ => (Stage::Failed(RidoError::URL), Action::Finish),
        },
        Stage::LinkResolved(url, hash) => (Stage::LinkResolved(url, hash), Action::Finish),
        Stage::Failed(e) => (Stage::Failed(e), Action::Finish),
    }
}

/// The step of a resolution for an enterprise release that is under way.
fn step_enterprise(
    entry: &WindowsEntry,
    format: ResponseFormat,
    release: EnterpriseRelease,
    lang: EnterpriseLanguage,
    event: Event,
) -> (r: (Stage, Action))
    ensures
        match event {
            Event::Body(page) => match format {
                ResponseFormat::Legacy => match positional_link_in(page@, release, lang, entry.arch) {
                    Ok(link) => r.0@ == ended(link.0, None, RidoError::HTMLParse),
                    Err(e) => r.0@ == StageView::Failed(e),
                },
                ResponseFormat::Current => match labelled_link_in(page@, release, lang, entry.arch) {
                    Ok(url) => r.0@ == ended(url, None, RidoError::HTMLParse),
                    Err(e) => r.0@ == StageView::Failed(e),
                },
            },
            _ => r.0@ == StageView::Failed(RidoError::HTMLParse),
        },
        r.1@ == ActionView::Finish,
{
    match event {
        Event::Body(page) => match format {
            ResponseFormat::Legacy => match extract_positional_link(
                page.as_str(),
                release,
                lang,
                entry.arch,
            ) {
                Ok(link) => (end_with(link.url, None, RidoError::HTMLParse), Action::Finish),
                Err(e) => (Stage::Failed(e), Action::Finish),
            },
            ResponseFormat::Current => match extract_labelled_link(
                page.as_str(),
                release,
                lang,
                entry.arch,
            ) {
                Ok(url) => (end_with(url, None, RidoError::HTMLParse), Action::Finish),
                Err(e) => (Stage::Failed(e), Action::Finish),
            },
        },
        _ => (Stage::Failed(RidoError::HTMLParse), Action::Finish),
    }
}

/// A step never leads back: the stage after it stands no lower than the
/// stage before it.
pub proof fn lemma_step_forward(state: ResolutionView, event: Event)
    ensures
        rank(state.stage) <= rank(next(state, event).0),
{
}

/// A resolution that has ended stays as it ended, whatever arrives: no stage
/// is run again and no failure is undone.
pub proof fn lemma_end_is_final(state: ResolutionView, event: Event)
    requires
        is_terminal(state.stage),
    ensures
        next(state, event) == (state.stage, ActionView::Finish),
{
}

/// The driver is told to stop exactly when the resolution has ended.
pub proof fn lemma_finish_at_end(state: ResolutionView, event: Event)
    ensures
        next(state, event).1 is Finish <==> is_terminal(next(state, event).0),
{
}

/// Nothing is sent, at the start or later, for a request that the rules
/// refuse; and a resolution that starts for such a request has failed with
/// the error that the rules name.
pub proof fn lemma_invalid_sends_nothing(
    state: ResolutionView,
    event: Event,
)
    requires
        !state.entry.is_valid(),
    ensures
        !(next(state, event).1 is Send),
        start(state.entry, state.format, state.user_agent, state.session_id) == (
            StageView::Failed(state.entry.check()->Err_0),
            ActionView::Finish,
        ),
{
}

/// A request that the rules admit starts with a request to the vendor.
pub proof fn lemma_valid_starts(
    entry: WindowsEntry,
    format: ResponseFormat,
    user_agent: Seq<char>,
    session_id: Seq<char>,
)
    requires
        entry.is_valid(),
    ensures
        start(entry, format, user_agent, session_id).1 is Send,
        !is_terminal(start(entry, format, user_agent, session_id).0),
{
}

/// A failure of the transport ends a resolution that is under way with the
/// transport's message, at whatever stage it arrives.
pub proof fn lemma_transport_failure(state: ResolutionView, message: String)
    requires
        !is_terminal(state.stage),
        state.entry.is_valid(),
    ensures
        next(state, Event::TransportFailed(message)) == (
            StageView::Failed(RidoError::Reqwest(message)),
            ActionView::Finish,
        ),
{
}

/// A resolution that ends with a link ends with a link that is not empty.
pub proof fn lemma_link_is_not_empty(state: ResolutionView, event: Event)
    requires
        !is_terminal(state.stage),
    ensures
        match next(state, event).0 {
            StageView::LinkResolved(url, _) => url.len() > 0,
            _ => true,
        },
{
}

/// A hash comes from the pages of the older endpoints of the consumer
/// releases and from nowhere else: a resolution that talks to the newer
/// endpoints, or that is for an enterprise release, ends without one.
pub proof fn lemma_hash_only_from_pages(state: ResolutionView, event: Event)
    requires
        !is_terminal(state.stage),
        state.format == ResponseFormat::Current || state.entry.release is Enterprise,
    ensures
        match next(state, event).0 {
            StageView::LinkResolved(_, hash) => hash is None,
            _ => true,
        },
{
}

/// A step takes a resolution on by one place at most, unless it ends it.
pub proof fn lemma_step_by_one(state: ResolutionView, event: Event)
    ensures
        is_terminal(next(state, event).0) || rank(next(state, event).0) <= rank(state.stage) + 1,
{
}

} // verus!
