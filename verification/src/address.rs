//! Parsing utilities for postal addresses.
//!
//! [`parse_address`] checks a request and opens a [`ParserSession`], which
//! asks for the native calls that the request takes, one at a time, and
//! turns what the native parser returns into an [`AddressParserResponse`].
use vstd::hash_map::StringHashMap;
use vstd::prelude::*;
use vstd::string::*;

use crate::error::{has_nul, NulError, RuntimeError, SetupError};
use crate::ffi;
use crate::ffi::NativeCall;
use crate::session::{Phase, Reply};
use crate::{LibModules, Lifecycle, LifecycleState};

verus! {

/// A sequence of `(label, token)` pairs, as a parse emits them.
pub type LabeledTokens = Seq<(Seq<char>, Seq<char>)>;

/// Represents the parsing result.
#[derive(Debug, Hash, Eq, PartialEq, Ord, PartialOrd)]
pub struct AddressParserResponse {
    tokens: Vec<String>,
    labels: Vec<String>,
}

impl View for AddressParserResponse {
    type V = LabeledTokens;

    /// The `(label, token)` pairs, in the order of the parse.
    closed spec fn view(&self) -> LabeledTokens {
        Seq::new(self.labels@.len(), |i: int| (self.labels@[i]@, self.tokens@[i]@))
    }
}

/// The pairs that a native response holds: none where the native parser
/// returned nothing, else the first `num_components` labels, each with its
/// token, in the order of the native arrays.
pub open spec fn emitted(raw: Option<ffi::libpostal_address_parser_response>) -> LabeledTokens {
    match raw {
        None => Seq::empty(),
        Some(parsed) => Seq::new(
            emitted_len(parsed),
            |i: int| (parsed.labels@[i]@, parsed.components@[i]@),
        ),
    }
}

/// The number of pairs that can be read from a native response: its
/// `num_components`, as far as both of its arrays reach.
pub open spec fn emitted_len(parsed: ffi::libpostal_address_parser_response) -> nat {
    let n = parsed.num_components as nat;
    let n = if parsed.components@.len() < n {
        parsed.components@.len()
    } else {
        n
    };
    if parsed.labels@.len() < n {
        parsed.labels@.len()
    } else {
        n
    }
}

impl AddressParserResponse {
    #[verifier::type_invariant]
    spec fn well_formed(&self) -> bool {
        self.tokens@.len() == self.labels@.len()
    }

    /// Create a new value.
    pub fn new() -> (response: AddressParserResponse)
        ensures
            response@ == LabeledTokens::empty(),
    {
        let response = AddressParserResponse { tokens: Vec::new(), labels: Vec::new() };
        assert(response@ =~= LabeledTokens::empty());
        response
    }

    /// The number of `(label, token)` pairs.
    pub fn len(&self) -> (len: usize)
        ensures
            len == self@.len(),
    {
        self.labels.len()
    }

    /// The pair at `index`, as `(label, token)`, or `None` past the end.
    pub fn get(&self, index: usize) -> (pair: Option<(&String, &String)>)
        ensures
            pair is Some <==> index < self@.len(),
            pair matches Some((label, token)) ==> (label@, token@) == self@[index as int],
    {
        proof {
            use_type_invariant(self);
        }
        if index < self.labels.len() {
            Some((&self.labels[index], &self.tokens[index]))
        } else {
            None
        }
    }

    /// The `(label, token)` pairs as owned strings, in the order of the parse.
    pub fn pairs(&self) -> (pairs: Vec<(String, String)>)
        ensures
            pairs.deep_view() == self@,
    {
        proof {
            use_type_invariant(self);
        }
        let mut pairs: Vec<(String, String)> = Vec::new();
        let mut i: usize = 0;
        while i < self.labels.len()
            invariant
                i <= self.labels@.len(),
                self.tokens@.len() == self.labels@.len(),
                pairs@.len() == i,
                forall|j: int|
                    0 <= j < i ==> (#[trigger] pairs@[j]).0@ == self.labels@[j]@ && pairs@[j].1@
                        == self.tokens@[j]@,
            decreases self.labels@.len() - i,
        {
            pairs.push((self.labels[i].clone(), self.tokens[i].clone()));
            i += 1;
        }
        assert(pairs.deep_view() =~= self@);
        pairs
    }

    /// Copies the pairs out of what the native parser returned.
    ///
    /// Every label and token of the result is a copy of its own, and the
    /// pairs keep the order of the native arrays. A parse that returned
    /// nothing gives an empty result.
    pub fn from_native(raw: &Option<ffi::libpostal_address_parser_response>) -> (response:
        AddressParserResponse)
        ensures
            response@ == emitted(*raw),
    {
        let mut labels: Vec<String> = Vec::new();
        let mut tokens: Vec<String> = Vec::new();
        if let Some(parsed) = raw {
            let mut i: usize = 0;
            while i < parsed.num_components && i < parsed.components.len() && i
                < parsed.labels.len()
                invariant
                    i <= emitted_len(*parsed),
                    labels@.len() == i,
                    tokens@.len() == i,
                    forall|j: int| 0 <= j < i ==> (#[trigger] labels@[j])@ == parsed.labels@[j]@,
                    forall|j: int|
                        0 <= j < i ==> (#[trigger] tokens@[j])@ == parsed.components@[j]@,
                decreases emitted_len(*parsed) - i,
            {
                labels.push(parsed.labels[i].clone());
                tokens.push(parsed.components[i].clone());
                i += 1;
            }
            assert(i == emitted_len(*parsed));
        }
        let response = AddressParserResponse { tokens, labels };
        assert(response@ =~= emitted(*raw));
        response
    }
}

impl Clone for AddressParserResponse {
    fn clone(&self) -> (copy: AddressParserResponse)
        ensures
            copy@ == self@,
    {
        proof {
            use_type_invariant(self);
        }
        let labels = self.labels.clone();
        let tokens = self.tokens.clone();
        let copy = AddressParserResponse { tokens, labels };
        assert(copy@ =~= self@);
        copy
    }
}

impl Default for AddressParserResponse {
    fn default() -> (response: AddressParserResponse)
        ensures
            response@ == LabeledTokens::empty(),
    {
        AddressParserResponse::new()
    }
}

/// Parsing options.
#[derive(Debug, Hash, Eq, PartialEq, Ord, PartialOrd)]
pub struct AddressParserOptions {
    language: Option<String>,
    country: Option<String>,
}

/// The hint that reaches the native parser: the one that was given, or
/// else the native default.
pub open spec fn preferred(hint: Option<Seq<char>>, default: Option<Seq<char>>) -> Option<
    Seq<char>,
> {
    if hint is Some {
        hint
    } else {
        default
    }
}

/// Whether a hint can cross the native boundary: it holds no zero byte.
pub open spec fn hint_ok(hint: Option<Seq<char>>) -> bool {
    hint matches Some(text) ==> !has_nul(text)
}

/// The native options that a request makes of `defaults`: each hint is the
/// one of the request where it was given, and the native default where it
/// was not.
pub open spec fn hinted(
    defaults: ffi::libpostal_address_parser_options,
    language: Option<Seq<char>>,
    country: Option<Seq<char>>,
    native: ffi::libpostal_address_parser_options,
) -> bool {
    &&& native.language.deep_view() == preferred(language, defaults.language.deep_view())
    &&& native.country.deep_view() == preferred(country, defaults.country.deep_view())
}

/// Building native parser options is repeatable: two structures built
/// from the same hints and the same native defaults agree on both fields.
pub proof fn lemma_hints_once(
    language: Option<Seq<char>>,
    country: Option<Seq<char>>,
    defaults: ffi::libpostal_address_parser_options,
    first: ffi::libpostal_address_parser_options,
    second: ffi::libpostal_address_parser_options,
)
    requires
        hinted(defaults, language, country, first),
        hinted(defaults, language, country, second),
    ensures
        first.language.deep_view() == second.language.deep_view(),
        first.country.deep_view() == second.country.deep_view(),
{
}

impl AddressParserOptions {
    #[verifier::type_invariant]
    spec fn well_formed(&self) -> bool {
        &&& hint_ok(self.language.deep_view())
        &&& hint_ok(self.country.deep_view())
    }

    /// The language hint, if any.
    pub closed spec fn language_hint(&self) -> Option<Seq<char>> {
        self.language.deep_view()
    }

    /// The country hint, if any.
    pub closed spec fn country_hint(&self) -> Option<Seq<char>> {
        self.country.deep_view()
    }

    /// Create options for the address parser.
    ///
    /// # Errors
    ///
    /// A hint that holds a zero byte is rejected, the language before the
    /// country, with the position of its first zero byte.
    pub fn new(language: Option<&str>, country: Option<&str>) -> (made: Result<
        AddressParserOptions,
        NulError,
    >)
        ensures
            made is Ok <==> hint_ok(language.deep_view()) && hint_ok(country.deep_view()),
            made matches Ok(options) ==> options.language_hint() == language.deep_view()
                && options.country_hint() == country.deep_view(),
            made matches Err(e) ==> if !hint_ok(language.deep_view()) {
                e.rejects(language.unwrap()@)
            } else {
                e.rejects(country.unwrap()@)
            },
    {
        let mut options = AddressParserOptions { language: None, country: None };
        if let Some(s) = language {
            let c_lang = ffi::c_string(s)?;
            options.language = Some(c_lang);
        }
        if let Some(s) = country {
            let c_country = ffi::c_string(s)?;
            options.country = Some(c_country);
        }
        Ok(options)
    }

    /// Get the language option.
    pub fn language(&self) -> (language: Option<&str>)
        ensures
            language.deep_view() == self.language_hint(),
            hint_ok(language.deep_view()),
    {
        proof {
            use_type_invariant(self);
        }
        match &self.language {
            Some(language) => Some(language.as_str()),
            None => None,
        }
    }

    /// Get the country option.
    pub fn country(&self) -> (country: Option<&str>)
        ensures
            country.deep_view() == self.country_hint(),
            hint_ok(country.deep_view()),
    {
        proof {
            use_type_invariant(self);
        }
        match &self.country {
            Some(country) => Some(country.as_str()),
            None => None,
        }
    }

    /// Puts the language hint, where there is one, in place of the native
    /// default.
    pub fn update_ffi_language(&self, options: &mut ffi::libpostal_address_parser_options)
        ensures
            final(options).language.deep_view() == preferred(
                self.language_hint(),
                old(options).language.deep_view(),
            ),
            final(options).country == old(options).country,
    {
        if let Some(language) = &self.language {
            options.language = Some(language.clone());
        }
    }

    /// Puts the country hint, where there is one, in place of the native
    /// default.
    pub fn update_ffi_country(&self, options: &mut ffi::libpostal_address_parser_options)
        ensures
            final(options).country.deep_view() == preferred(
                self.country_hint(),
                old(options).country.deep_view(),
            ),
            final(options).language == old(options).language,
    {
        if let Some(country) = &self.country {
            options.country = Some(country.clone());
        }
    }
}

impl Clone for AddressParserOptions {
    fn clone(&self) -> (copy: AddressParserOptions)
        ensures
            copy.language_hint() == self.language_hint(),
            copy.country_hint() == self.country_hint(),
    {
        proof {
            use_type_invariant(self);
        }
        let language = match &self.language {
            Some(language) => Some(language.clone()),
            None => None,
        };
        let country = match &self.country {
            Some(country) => Some(country.clone()),
            None => None,
        };
        AddressParserOptions { language, country }
    }
}

impl Default for AddressParserOptions {
    fn default() -> (options: AddressParserOptions)
        ensures
            options.language_hint() is None,
            options.country_hint() is None,
    {
        AddressParserOptions { language: None, country: None }
    }
}


/// What the native library returned to a [`ParserSession`].
#[derive(Clone, Debug, PartialEq, Eq)]
pub enum ParserEvent {
    /// The native default options of the parser.
    Defaults(ffi::libpostal_address_parser_options),
    /// What the native parser returned: `None` for a null response.
    Response(Option<ffi::libpostal_address_parser_response>),
    /// The native response has been destroyed.
    Destroyed,
}

impl ParserEvent {
    /// The kind of reply that the event is.
    pub open spec fn reply(self) -> Reply {
        match self {
            ParserEvent::Defaults(_) => Reply::Defaults,
            ParserEvent::Response(_) => Reply::Returned,
            ParserEvent::Destroyed => Reply::Released,
        }
    }

    fn kind(&self) -> (reply: Reply)
        ensures
            reply == self.reply(),
    {
        match self {
            ParserEvent::Defaults(_) => Reply::Defaults,
            ParserEvent::Response(_) => Reply::Returned,
            ParserEvent::Destroyed => Reply::Released,
        }
    }
}

/// One request to the native address parser, from the validated input to
/// the copied result.
///
/// The session owns the text and the options of the request for as long as
/// the native call may read them. [`next`](ParserSession::next) names the
/// native call that is due, [`advance`](ParserSession::advance) takes what
/// it returned, and [`finish`](ParserSession::finish) gives the result once
/// the native response has been destroyed.
#[derive(Debug)]
pub struct ParserSession {
    phase: Phase,
    address: String,
    options: AddressParserOptions,
    native: ffi::libpostal_address_parser_options,
    response: AddressParserResponse,
}

impl ParserSession {
    #[verifier::type_invariant]
    spec fn well_formed(&self) -> bool {
        !has_nul(self.address@)
    }

    /// The native call that the session waits for.
    pub closed spec fn phase(&self) -> Phase {
        self.phase
    }

    /// The address to parse.
    pub closed spec fn address_text(&self) -> Seq<char> {
        self.address@
    }

    /// The language hint of the request.
    pub closed spec fn language_hint(&self) -> Option<Seq<char>> {
        self.options.language_hint()
    }

    /// The country hint of the request.
    pub closed spec fn country_hint(&self) -> Option<Seq<char>> {
        self.options.country_hint()
    }

    /// The options that go to the native parser.
    pub closed spec fn native(&self) -> ffi::libpostal_address_parser_options {
        self.native
    }

    /// The pairs copied from the native response.
    pub closed spec fn response(&self) -> LabeledTokens {
        self.response@
    }

    /// The native call of each phase.
    pub open spec fn call_in(phase: Phase) -> Option<NativeCall> {
        match phase {
            Phase::Configure => Some(NativeCall::GetAddressParserDefaultOptions),
            Phase::Invoke => Some(NativeCall::ParseAddress),
            Phase::Release => Some(NativeCall::AddressParserResponseDestroy),
            Phase::Done => None,
        }
    }

    /// A session as [`AddressParserOptions::parse`] opens it: nothing
    /// fetched, nothing called, nothing copied.
    pub open spec fn opened_with(
        &self,
        address: Seq<char>,
        language: Option<Seq<char>>,
        country: Option<Seq<char>>,
    ) -> bool {
        &&& self.phase() is Configure
        &&& self.address_text() == address
        &&& self.language_hint() == language
        &&& self.country_hint() == country
        &&& self.native().language is None
        &&& self.native().country is None
        &&& self.response() == LabeledTokens::empty()
    }

    /// Whether this session is the one that `before` becomes with `event`.
    ///
    /// The phase moves as [`Phase::after`] says. The request stays. The
    /// native options change only with the defaults that the session waits
    /// for, and the response only with the native response that it waits
    /// for.
    pub open spec fn follows(&self, before: ParserSession, event: ParserEvent) -> bool {
        &&& self.phase() == before.phase().after(event.reply())
        &&& self.address_text() == before.address_text()
        &&& self.language_hint() == before.language_hint()
        &&& self.country_hint() == before.country_hint()
        &&& match event {
            ParserEvent::Defaults(defaults) if before.phase() is Configure => hinted(
                defaults,
                before.language_hint(),
                before.country_hint(),
                self.native(),
            ),
            _ => self.native() == before.native(),
        }
        &&& self.response() == match event {
            ParserEvent::Response(raw) if before.phase() is Invoke => emitted(raw),
            _ => before.response(),
        }
    }

    /// The native call to make next, or `None` when the session is over.
    ///
    /// The call that hands out a native response is asked for only once the
    /// request is ready for it. Its destructor, and no other, is asked for
    /// exactly while the session holds a native response, and the session
    /// is not over while it holds one.
    pub fn next(&self) -> (call: Option<NativeCall>)
        ensures
            call == Self::call_in(self.phase()),
            call is None <==> self.phase() is Done,
            call matches Some(due) ==> {
                &&& due.allocates() <==> self.phase() is Invoke
                &&& due.releases() <==> self.phase().holds_buffer()
                &&& due.releases() ==> Some(due) == NativeCall::ParseAddress.destructor()
            },
    {
        match self.phase {
            Phase::Configure => Some(NativeCall::GetAddressParserDefaultOptions),
            Phase::Invoke => Some(NativeCall::ParseAddress),
            Phase::Release => Some(NativeCall::AddressParserResponseDestroy),
            Phase::Done => None,
        }
    }

    /// The text to hand to the native parser. It holds no zero byte.
    pub fn address(&self) -> (address: &str)
        ensures
            address@ == self.address_text(),
            !has_nul(address@),
    {
        proof {
            use_type_invariant(self);
        }
        self.address.as_str()
    }

    /// The options to hand to the native parser: once the defaults are in,
    /// each hint of the request where it was given, the native default
    /// where it was not.
    pub fn options(&self) -> (options: &ffi::libpostal_address_parser_options)
        ensures
            *options == self.native(),
    {
        &self.native
    }

    /// Takes what the native library returned and moves to the next phase.
    ///
    /// An event that the session does not wait for changes nothing. The
    /// defaults are overlaid with the hints of the request; the response is
    /// copied, pair by pair and in its order, before its destructor is
    /// asked for.
    pub fn advance(&mut self, event: ParserEvent)
        ensures
            final(self).follows(*old(self), event),
    {
        proof {
            use_type_invariant(&*self);
        }
        let reply = event.kind();
        if !self.phase.expects(reply) {
            return ;
        }
        match event {
            ParserEvent::Defaults(defaults) => {
                let mut native = defaults;
                self.options.update_ffi_language(&mut native);
                self.options.update_ffi_country(&mut native);
                self.native = native;
            },
            ParserEvent::Response(raw) => {
                self.response = AddressParserResponse::from_native(&raw);
            },
            ParserEvent::Destroyed => {},
        }
        self.phase = self.phase.advance(reply);
    }

    /// Ends the session: the parsed pairs once the session is over, `None`
    /// while a native call is still due.
    pub fn finish(self) -> (response: Option<AddressParserResponse>)
        ensures
            response is Some <==> self.phase() is Done,
            response matches Some(parsed) ==> parsed@ == self.response(),
    {
        match self.phase {
            Phase::Done => Some(self.response),
            _ => None,
        }
    }
}

/// A request that is carried through in its order ends with what the
/// native parser returned.
///
/// Once the defaults are in, the session waits for the parse, with the
/// address of the request and each hint in place of the native default.
/// Once the parse has returned, it holds the native response until the
/// destructor has run. Then it is done, and its result is the pairs of the
/// native response, each one and in their order.
pub proof fn lemma_parse_in_order(
    opened: ParserSession,
    readied: ParserSession,
    returned: ParserSession,
    released: ParserSession,
    defaults: ffi::libpostal_address_parser_options,
    raw: Option<ffi::libpostal_address_parser_response>,
)
    requires
        opened.phase() is Configure,
        readied.follows(opened, ParserEvent::Defaults(defaults)),
        returned.follows(readied, ParserEvent::Response(raw)),
        released.follows(returned, ParserEvent::Destroyed),
    ensures
        readied.phase() is Invoke,
        readied.address_text() == opened.address_text(),
        hinted(defaults, opened.language_hint(), opened.country_hint(), readied.native()),
        returned.phase().holds_buffer(),
        returned.native() == readied.native(),
        released.phase() is Done,
        released.response() == emitted(raw),
{
}

impl AddressParserOptions {
    /// Parse a postal address and derive labeled tokens using `libpostal`.
    ///
    /// Opens the session that carries the request through the native
    /// parser. No native call has been made when this returns.
    ///
    /// # Errors
    ///
    /// An address that holds a zero byte is rejected as `InvalidAddress`,
    /// with the position of its first zero byte. Otherwise, unless the base
    /// of the native library and its parser are `Ready` in `lifecycle`, the
    /// request fails with `FailedSetup`.
    pub fn parse(&self, address: &str, lifecycle: &Lifecycle) -> (opened: Result<
        ParserSession,
        RuntimeError,
    >)
        ensures
            match opened {
                Ok(session) => {
                    &&& !has_nul(address@)
                    &&& lifecycle.ready_for(LibModules::Address)
                    &&& session.opened_with(address@, self.language_hint(), self.country_hint())
                },
                Err(RuntimeError::InvalidAddress(e)) => has_nul(address@) && e.rejects(address@),
                Err(RuntimeError::FailedSetup(_)) => !has_nul(address@) && !lifecycle.ready_for(
                    LibModules::Address,
                ),
            },
    {
        let c_address = match ffi::c_string(address) {
            Ok(c_address) => c_address,
            Err(e) => { return Err(RuntimeError::from(e)); },
        };
        match lifecycle.state(&LibModules::Address) {
            LifecycleState::Ready => {},
            _ => { return Err(RuntimeError::from(SetupError)); },
        }
        Ok(
            ParserSession {
                phase: Phase::Configure,
                address: c_address,
                options: self.clone(),
                native: ffi::libpostal_address_parser_options { language: None, country: None },
                response: AddressParserResponse::new(),
            },
        )
    }
}

/// Analyze address into labeled tokens.
///
/// * `address`: The postal address to parse.
/// * `language`: A language code.
/// * `country`: A country code.
/// * `lifecycle`: The state of the native library.
///
/// The function wraps [`AddressParserOptions::parse`]: it opens the session
/// that yields the labeled tokens, and makes no native call.
///
/// # Errors
///
/// A text that holds a zero byte is rejected as `InvalidAddress`: the
/// language hint first, then the country hint, then the address. A request
/// whose texts hold none fails only with `FailedSetup`, and only where the
/// base of the native library or its parser is not `Ready`.
pub fn parse_address(
    address: &str,
    language: Option<&str>,
    country: Option<&str>,
    lifecycle: &Lifecycle,
) -> (opened: Result<ParserSession, RuntimeError>)
    ensures
        match opened {
            Ok(session) => {
                &&& request_ok(address@, language.deep_view(), country.deep_view())
                &&& lifecycle.ready_for(LibModules::Address)
                &&& session.opened_with(address@, language.deep_view(), country.deep_view())
            },
            Err(RuntimeError::InvalidAddress(e)) => {
                &&& !request_ok(address@, language.deep_view(), country.deep_view())
                &&& e.rejects(
                    first_rejected(address@, language.deep_view(), country.deep_view()),
                )
            },
            Err(RuntimeError::FailedSetup(_)) => {
                &&& request_ok(address@, language.deep_view(), country.deep_view())
                &&& !lifecycle.ready_for(LibModules::Address)
            },
        },
{
    let options = match AddressParserOptions::new(language, country) {
        Ok(options) => options,
        Err(e) => { return Err(RuntimeError::from(e)); },
    };
    options.parse(address, lifecycle)
}

/// Whether no text of a request holds a zero byte.
pub open spec fn request_ok(
    address: Seq<char>,
    language: Option<Seq<char>>,
    country: Option<Seq<char>>,
) -> bool {
    &&& hint_ok(language)
    &&& hint_ok(country)
    &&& !has_nul(address)
}

/// The text that a request is rejected for: the first that holds a zero
/// byte, of the language hint, the country hint and the address.
pub open spec fn first_rejected(
    address: Seq<char>,
    language: Option<Seq<char>>,
    country: Option<Seq<char>>,
) -> Seq<char> {
    if !hint_ok(language) {
        language.unwrap()
    } else if !hint_ok(country) {
        country.unwrap()
    } else {
        address
    }
}


/// The mapping that a sequence of `(label, token)` pairs folds into: each
/// pair in turn sets the token of its label, so that the last pair of a
/// label decides.
pub open spec fn folded(pairs: LabeledTokens) -> Map<Seq<char>, Seq<char>>
    decreases pairs.len(),
{
    if pairs.len() == 0 {
        Map::empty()
    } else {
        folded(pairs.drop_last()).insert(pairs.last().0, pairs.last().1)
    }
}

/// The token that a mapping holds for `label`, if any.
pub open spec fn token_of(fields: Map<Seq<char>, Seq<char>>, label: Seq<char>) -> Option<
    Seq<char>,
> {
    if fields.contains_key(label) {
        Some(fields[label])
    } else {
        None
    }
}

/// Whether `index` is the place of the last pair of `pairs` with `label`.
pub open spec fn is_last_with(pairs: LabeledTokens, label: Seq<char>, index: int) -> bool {
    &&& 0 <= index < pairs.len()
    &&& pairs[index].0 == label
    &&& forall|j: int| index < j < pairs.len() ==> pairs[j].0 != label
}

/// The last writer wins: a label that no pair carries has no token in the
/// folded mapping, and a label that some pair carries has the token of the
/// last pair that carries it.
pub proof fn lemma_last_writer_wins(pairs: LabeledTokens, label: Seq<char>)
    ensures
        folded(pairs).contains_key(label) <==> exists|i: int|
            0 <= i < pairs.len() && #[trigger] pairs[i].0 == label,
        forall|i: int| #[trigger]
            is_last_with(pairs, label, i) ==> token_of(folded(pairs), label) == Some(pairs[i].1),
    decreases pairs.len(),
{
    if pairs.len() > 0 {
        let front = pairs.drop_last();
        lemma_last_writer_wins(front, label);
        if pairs.last().0 == label {
            assert(pairs[pairs.len() - 1].0 == label);
        } else {
            if folded(pairs).contains_key(label) {
                let i = choose|i: int| 0 <= i < front.len() && #[trigger] front[i].0 == label;
                assert(pairs[i].0 == label);
            }
            if exists|i: int| 0 <= i < pairs.len() && #[trigger] pairs[i].0 == label {
                let i = choose|i: int| 0 <= i < pairs.len() && #[trigger] pairs[i].0 == label;
                assert(front[i].0 == label);
            }
            assert forall|i: int| #[trigger] is_last_with(pairs, label, i) implies token_of(
                folded(pairs),
                label,
            ) == Some(pairs[i].1) by {
                assert(is_last_with(front, label, i));
            }
        }
    }
}

/// A parsed address backed by a hash map.
/// The only way to make one is from an `AddressParserResponse`.
/// It implements a getter method for each label that might
/// be included in the `AddressParserResponse`.
pub struct ParsedAddress {
    label_to_token: StringHashMap<String>,
}

impl View for ParsedAddress {
    type V = Map<Seq<char>, Seq<char>>;

    /// The token of each label that the address holds.
    closed spec fn view(&self) -> Map<Seq<char>, Seq<char>> {
        self.label_to_token@.map_values(|token: String| token@)
    }
}

impl ParsedAddress {
    /// The token of `label`, if the address holds one.
    pub open spec fn field(&self, label: Seq<char>) -> Option<Seq<char>> {
        token_of(self@, label)
    }

    fn get(&self, label: &str) -> (token: Option<String>)
        ensures
            token.deep_view() == self.field(label@),
    {
        match self.label_to_token.get(label) {
            Some(token) => Some(token.clone()),
            None => None,
        }
    }

    pub fn house(&self) -> (token: Option<String>)
        ensures
            token.deep_view() == self.field("house"@),
    {
        self.get("house")
    }

    pub fn house_number(&self) -> (token: Option<String>)
        ensures
            token.deep_view() == self.field("house_number"@),
    {
        self.get("house_number")
    }

    pub fn po_box(&self) -> (token: Option<String>)
        ensures
            token.deep_view() == self.field("po_box"@),
    {
        self.get("po_box")
    }

    pub fn building(&self) -> (token: Option<String>)
        ensures
            token.deep_view() == self.field("building"@),
    {
        self.get("building")
    }

    pub fn entrance(&self) -> (token: Option<String>)
        ensures
            token.deep_view() == self.field("entrance"@),
    {
        self.get("entrance")
    }

    pub fn staircase(&self) -> (token: Option<String>)
        ensures
            token.deep_view() == self.field("staircase"@),
    {
        self.get("staircase")
    }

    pub fn level(&self) -> (token: Option<String>)
        ensures
            token.deep_view() == self.field("level"@),
    {
        self.get("level")
    }

    pub fn unit(&self) -> (token: Option<String>)
        ensures
            token.deep_view() == self.field("unit"@),
    {
        self.get("unit")
    }

    pub fn road(&self) -> (token: Option<String>)
        ensures
            token.deep_view() == self.field("road"@),
    {
        self.get("road")
    }

    pub fn metro_station(&self) -> (token: Option<String>)
        ensures
            token.deep_view() == self.field("metro_station"@),
    {
        self.get("metro_station")
    }

    pub fn suburb(&self) -> (token: Option<String>)
        ensures
            token.deep_view() == self.field("suburb"@),
    {
        self.get("suburb")
    }

    pub fn city_district(&self) -> (token: Option<String>)
        ensures
            token.deep_view() == self.field("city_district"@),
    {
        self.get("city_district")
    }

    pub fn city(&self) -> (token: Option<String>)
        ensures
            token.deep_view() == self.field("city"@),
    {
        self.get("city")
    }

    pub fn state_district(&self) -> (token: Option<String>)
        ensures
            token.deep_view() == self.field("state_district"@),
    {
        self.get("state_district")
    }

    pub fn island(&self) -> (token: Option<String>)
        ensures
            token.deep_view() == self.field("island"@),
    {
        self.get("island")
    }

    pub fn state(&self) -> (token: Option<String>)
        ensures
            token.deep_view() == self.field("state"@),
    {
        self.get("state")
    }

    // postcode may be referred to as postal_code somewheres
    // https://github.com/openvenues/libpostal/blob/9c975972985b54491e756efd70e416f18ff97958/src/address_parser.h#L122
    pub fn postcode(&self) -> (token: Option<String>)
        ensures
            token.deep_view() == self.field("postcode"@),
    {
        self.get("postcode")
    }

    pub fn country_region(&self) -> (token: Option<String>)
        ensures
            token.deep_view() == self.field("country_region"@),
    {
        self.get("country_region")
    }

    pub fn country(&self) -> (token: Option<String>)
        ensures
            token.deep_view() == self.field("country"@),
    {
        self.get("country")
    }

    pub fn world_region(&self) -> (token: Option<String>)
        ensures
            token.deep_view() == self.field("world_region"@),
    {
        self.get("world_region")
    }

    pub fn website(&self) -> (token: Option<String>)
        ensures
            token.deep_view() == self.field("website"@),
    {
        self.get("website")
    }

    pub fn telephone(&self) -> (token: Option<String>)
        ensures
            token.deep_view() == self.field("telephone"@),
    {
        self.get("telephone")
    }
}

impl Default for ParsedAddress {
    fn default() -> (parsed: ParsedAddress)
        ensures
            parsed@ == Map::<Seq<char>, Seq<char>>::empty(),
    {
        let parsed = ParsedAddress { label_to_token: StringHashMap::new() };
        assert(parsed@ =~= Map::<Seq<char>, Seq<char>>::empty());
        parsed
    }
}

impl From<AddressParserResponse> for ParsedAddress {
    /// Create a new `ParsedAddress` from an `AddressParserResponse`.
    ///
    /// The pairs of the response are folded into the mapping in their
    /// order: where a label comes more than once, its last token stays.
    fn from(response: AddressParserResponse) -> (parsed: ParsedAddress)
        ensures
            parsed@ == folded(response@),
    {
        let mut label_to_token: StringHashMap<String> = StringHashMap::new();
        let count = response.len();
        let mut i: usize = 0;
        while i < count
            invariant
                i <= count,
                count == response@.len(),
                label_to_token@.map_values(|token: String| token@) == folded(
                    response@.take(i as int),
                ),
            decreases count - i,
        {
            if let Some((label, token)) = response.get(i) {
                let ghost before = label_to_token@;
                label_to_token.insert(label.clone(), token.clone());
                proof {
                    let pairs = response@.take(i + 1);
                    assert(pairs.drop_last() =~= response@.take(i as int));
                    assert(pairs.last() == response@[i as int]);
                    assert(label_to_token@.map_values(|token: String| token@) =~= before.map_values(
                        |token: String| token@,
                    ).insert(label@, token@));
                }
            }
            i += 1;
        }
        assert(response@.take(i as int) =~= response@);
        ParsedAddress { label_to_token }
    }
}

impl vstd::std_specs::convert::FromSpecImpl<AddressParserResponse> for ParsedAddress {
    open spec fn obeys_from_spec() -> bool {
        false
    }

    open spec fn from_spec(response: AddressParserResponse) -> ParsedAddress {
        arbitrary()
    }
}

} // verus!
