//! How the attributes of a handler select its entry point.
//!
//! A handler is marked with a list of attribute names. One of them names the
//! kind of event that it serves; `respond_with_errors` asks that a failure of
//! a request handler be answered rather than raised. [`expand_macro`] turns
//! the list and the handler's name into the plan of the entry point that is
//! generated around the handler.

use vstd::prelude::*;
use vstd::string::*;
use vstd::utf8::encode_utf8_decode_utf8;

verus! {

/// The kind of event that a handler serves.
#[derive(Clone, Copy, Debug, PartialEq, Eq, Structural)]
pub enum HandlerType {
    /// An incoming request.
    Fetch,
    /// A scheduled tick.
    Scheduled,
    /// The start of the process.
    Start,
    /// A batch of queued messages.
    Queue,
}

/// What one attribute name asks for.
#[derive(Clone, Copy, Debug, PartialEq, Eq, Structural)]
pub enum Attribute {
    /// The handler serves this kind of event.
    Handler(HandlerType),
    /// A failure of the handler is answered with an error response.
    RespondWithErrors,
}

/// Why a list of attributes was refused.
#[derive(Clone, Copy, Debug, PartialEq, Eq, Structural)]
pub enum AttributeError {
    /// The attribute at `index` is none that a handler can have.
    Invalid { index: usize },
    /// No attribute names the kind of event.
    MissingHandlerType,
}

/// What the attributes of a handler ask for.
#[derive(Clone, Copy, Debug, PartialEq, Eq, Structural)]
pub struct HandlerConfig {
    pub handler_type: HandlerType,
    pub respond_with_errors: bool,
}

/// What an entry point does when its handler fails.
#[derive(Clone, Copy, Debug, PartialEq, Eq, Structural)]
pub enum ErrorHandling {
    /// It answers with an error response that carries the failure's text.
    Respond,
    /// It raises the failure, which ends the invocation without a response.
    Raise,
}

/// The meaning of the attribute `name`. Queue handlers are optional: with
/// `queue` off their attribute is unknown.
pub open spec fn attribute_of(name: Seq<char>, queue: bool) -> Option<Attribute> {
    if name == "fetch"@ {
        Some(Attribute::Handler(HandlerType::Fetch))
    } else if name == "scheduled"@ {
        Some(Attribute::Handler(HandlerType::Scheduled))
    } else if name == "start"@ {
        Some(Attribute::Handler(HandlerType::Start))
    } else if queue && name == "queue"@ {
        Some(Attribute::Handler(HandlerType::Queue))
    } else if name == "respond_with_errors"@ {
        Some(Attribute::RespondWithErrors)
    } else {
        None
    }
}

/// The texts of the attributes `attrs`.
pub open spec fn names(attrs: Seq<String>) -> Seq<Seq<char>> {
    Seq::new(attrs.len(), |i: int| attrs[i]@)
}

/// Every one of `names` is an attribute that a handler can have.
pub open spec fn all_known(names: Seq<Seq<char>>, queue: bool) -> bool {
    forall|i: int| 0 <= i < names.len() ==> (#[trigger] attribute_of(names[i], queue)).is_some()
}

/// `index` is the place of the first of `names` that is no attribute.
pub open spec fn first_unknown(names: Seq<Seq<char>>, queue: bool, index: int) -> bool {
    &&& 0 <= index < names.len()
    &&& attribute_of(names[index], queue).is_none()
    &&& all_known(names.take(index), queue)
}

/// The kind of event that `names` select: that of the last attribute that
/// names one.
pub open spec fn selected(names: Seq<Seq<char>>, queue: bool) -> Option<HandlerType>
    decreases names.len(),
{
    if names.len() == 0 {
        None
    } else {
        match attribute_of(names.last(), queue) {
            Some(Attribute::Handler(handler_type)) => Some(handler_type),
            _ => selected(names.drop_last(), queue),
        }
    }
}

/// One of `names` asks for error responses.
pub open spec fn wants_error_responses(names: Seq<Seq<char>>, queue: bool) -> bool {
    exists|i: int|
        0 <= i < names.len() && #[trigger] attribute_of(names[i], queue) == Some(
            Attribute::RespondWithErrors,
        )
}

/// What the attributes `names` come to: the first unknown one is an error;
/// without any, the kind of event must have been named.
pub open spec fn parse(names: Seq<Seq<char>>, queue: bool) -> Result<HandlerConfig, AttributeError> {
    if all_known(names, queue) {
        match selected(names, queue) {
            Some(handler_type) => Ok(
                HandlerConfig {
                    handler_type,
                    respond_with_errors: wants_error_responses(names, queue),
                },
            ),
            None => Err(AttributeError::MissingHandlerType),
        }
    } else {
        Err(
            AttributeError::Invalid {
                index: choose|index: usize| first_unknown(names, queue, index as int),
            },
        )
    }
}

/// The first unknown attribute has one place, and a list that has one is
/// not known throughout.
proof fn lemma_first_unknown(names: Seq<Seq<char>>, queue: bool, i: int, j: int)
    requires
        first_unknown(names, queue, i),
    ensures
        !all_known(names, queue),
        first_unknown(names, queue, j) ==> i == j,
{
    assert(attribute_of(names[i], queue).is_none());
    if first_unknown(names, queue, j) {
        if i < j {
            assert(names.take(j)[i] == names[i]);
        } else if j < i {
            assert(names.take(i)[j] == names[j]);
        }
    }
}

/// A list whose first unknown attribute stands at `index` is refused with
/// that index.
pub proof fn lemma_parse_invalid(names: Seq<Seq<char>>, queue: bool, index: usize)
    requires
        first_unknown(names, queue, index as int),
    ensures
        parse(names, queue) == Err::<HandlerConfig, _>(AttributeError::Invalid { index }),
{
    lemma_first_unknown(names, queue, index as int, 0);
    let chosen: usize = choose|other: usize| first_unknown(names, queue, other as int);
    lemma_first_unknown(names, queue, index as int, chosen as int);
}

/// Whether two texts are the same, character for character.
fn same_text(left: &str, right: &str) -> (same: bool)
    ensures
        same == (left@ == right@),
{
    let a: &[u8] = left.as_bytes();
    let b: &[u8] = right.as_bytes();
    proof {
        encode_utf8_decode_utf8(left@);
        encode_utf8_decode_utf8(right@);
    }
    if a.len() != b.len() {
        return false;
    }
    let mut i: usize = 0;
    while i < a.len()
        invariant
            i <= a.len(),
            a.len() == b.len(),
            a@ == left.spec_bytes(),
            b@ == right.spec_bytes(),
            forall|j: int| 0 <= j < i ==> a@[j] == b@[j],
        decreases a.len() - i,
    {
        if a[i] != b[i] {
            assert(a@[i as int] != b@[i as int]);
            return false;
        }
        i += 1;
    }
    assert(a@ =~= b@);
    true
}

/// The meaning of the attribute `name`, or `None` for an unknown one.
pub fn classify(name: &str, queue: bool) -> (attribute: Option<Attribute>)
    ensures
        attribute == attribute_of(name@, queue),
{
    if same_text(name, "fetch") {
        Some(Attribute::Handler(HandlerType::Fetch))
    } else if same_text(name, "scheduled") {
        Some(Attribute::Handler(HandlerType::Scheduled))
    } else if same_text(name, "start") {
        Some(Attribute::Handler(HandlerType::Start))
    } else if queue && same_text(name, "queue") {
        Some(Attribute::Handler(HandlerType::Queue))
    } else if same_text(name, "respond_with_errors") {
        Some(Attribute::RespondWithErrors)
    } else {
        None
    }
}

/// What one more attribute adds to what the attributes before it came to.
proof fn lemma_next_attribute(names: Seq<Seq<char>>, queue: bool, i: int)
    requires
        0 <= i < names.len(),
    ensures
        all_known(names.take(i + 1), queue) <==> all_known(names.take(i), queue) && attribute_of(
            names[i],
            queue,
        ).is_some(),
        selected(names.take(i + 1), queue) == match attribute_of(names[i], queue) {
            Some(Attribute::Handler(handler_type)) => Some(handler_type),
            _ => selected(names.take(i), queue),
        },
        wants_error_responses(names.take(i + 1), queue) <==> wants_error_responses(
            names.take(i),
            queue,
        ) || attribute_of(names[i], queue) == Some(Attribute::RespondWithErrors),
{
    let seen = names.take(i);
    let next = names.take(i + 1);
    assert(next.drop_last() =~= seen);
    assert(next[i] == names[i]);
    assert forall|j: int| 0 <= j < i implies seen[j] == next[j] by {}
    if all_known(next, queue) {
        assert forall|j: int| 0 <= j < i implies (#[trigger] attribute_of(
            seen[j],
            queue,
        )).is_some() by {
            assert(attribute_of(next[j], queue).is_some());
        }
    }
    if all_known(seen, queue) && attribute_of(names[i], queue).is_some() {
        assert forall|j: int| 0 <= j < i + 1 implies (#[trigger] attribute_of(
            next[j],
            queue,
        )).is_some() by {
            if j < i {
                assert(attribute_of(seen[j], queue).is_some());
            }
        }
    }
    if wants_error_responses(seen, queue) {
        let j = choose|j: int|
            0 <= j < seen.len() && #[trigger] attribute_of(seen[j], queue) == Some(
                Attribute::RespondWithErrors,
            );
        assert(attribute_of(next[j], queue) == Some(Attribute::RespondWithErrors));
    }
    if wants_error_responses(next, queue) {
        let j = choose|j: int|
            0 <= j < next.len() && #[trigger] attribute_of(next[j], queue) == Some(
                Attribute::RespondWithErrors,
            );
        if j < i {
            assert(attribute_of(seen[j], queue) == Some(Attribute::RespondWithErrors));
        }
    }
    if attribute_of(names[i], queue) == Some(Attribute::RespondWithErrors) {
        assert(attribute_of(next[i], queue) == Some(Attribute::RespondWithErrors));
    }
}

/// Reads the attributes of a handler, in their order.
///
/// The first attribute that is unknown is an error, with its index. Among
/// known ones the last that names a kind of event decides it, and naming
/// none is an error. `respond_with_errors` may stand anywhere.
pub fn parse_attributes(attrs: &Vec<String>, queue: bool) -> (result: Result<
    HandlerConfig,
    AttributeError,
>)
    ensures
        result == parse(names(attrs@), queue),
{
    let ghost all: Seq<Seq<char>> = names(attrs@);
    let mut handler_type: Option<HandlerType> = None;
    let mut respond_with_errors: bool = false;
    let mut i: usize = 0;
    while i < attrs.len()
        invariant
            i <= attrs.len(),
            all == names(attrs@),
            all_known(all.take(i as int), queue),
            handler_type == selected(all.take(i as int), queue),
            respond_with_errors == wants_error_responses(all.take(i as int), queue),
        decreases attrs.len() - i,
    {
        proof {
            lemma_next_attribute(all, queue, i as int);
        }
        match classify(attrs[i].as_str(), queue) {
            Some(Attribute::Handler(named)) => {
                handler_type = Some(named);
            },
            Some(Attribute::RespondWithErrors) => {
                respond_with_errors = true;
            },
            None => {
                proof {
                    lemma_parse_invalid(all, queue, i);
                }
                return Err(AttributeError::Invalid { index: i });
            },
        }
        i += 1;
    }
    assert(all.take(i as int) =~= all);
    match handler_type {
        Some(handler_type) => Ok(HandlerConfig { handler_type, respond_with_errors }),
        None => Err(AttributeError::MissingHandlerType),
    }
}

/// The plan of the entry point that is generated around a handler.
#[derive(Debug, PartialEq, Eq)]
pub struct Expansion {
    /// The kind of event that the entry point serves.
    pub handler_type: HandlerType,
    /// The name under which the handler itself is kept.
    pub handler_ident: String,
    /// The name of the entry point, which the host calls.
    pub wrapper_ident: String,
    /// The name of the module that holds the entry point.
    pub module_ident: String,
    /// The entry point runs once, when the process starts.
    pub runs_at_start: bool,
    /// The entry point races the handler against an abort controller of its
    /// own and keeps that controller in the registry while the handler runs.
    pub cancellable: bool,
    /// What the entry point does with a failure of the handler, where it
    /// inspects the handler's result at all.
    pub error_handling: Option<ErrorHandling>,
}

/// An [`Expansion`] with its names as texts.
pub struct ExpansionView {
    pub handler_type: HandlerType,
    pub handler_ident: Seq<char>,
    pub wrapper_ident: Seq<char>,
    pub module_ident: Seq<char>,
    pub runs_at_start: bool,
    pub cancellable: bool,
    pub error_handling: Option<ErrorHandling>,
}

impl View for Expansion {
    type V = ExpansionView;

    open spec fn view(&self) -> ExpansionView {
        ExpansionView {
            handler_type: self.handler_type,
            handler_ident: self.handler_ident@,
            wrapper_ident: self.wrapper_ident@,
            module_ident: self.module_ident@,
            runs_at_start: self.runs_at_start,
            cancellable: self.cancellable,
            error_handling: self.error_handling,
        }
    }
}

impl HandlerType {
    /// The name of the entry point for this kind of event.
    pub open spec fn wrapper_name(self) -> Seq<char> {
        match self {
            HandlerType::Fetch => "fetch"@,
            HandlerType::Scheduled => "scheduled"@,
            HandlerType::Start => "start"@,
            HandlerType::Queue => "queue"@,
        }
    }

    /// What is appended to a handler's name when an entry point of this kind
    /// takes its place.
    pub open spec fn glue_suffix(self) -> Seq<char> {
        match self {
            HandlerType::Fetch => "_fetch_glue"@,
            HandlerType::Scheduled => "_scheduled_glue"@,
            HandlerType::Start => "_start_glue"@,
            HandlerType::Queue => "_queue_glue"@,
        }
    }

    /// The name of the module that holds an entry point of this kind.
    pub open spec fn module_name(self) -> Seq<char> {
        match self {
            HandlerType::Fetch => "_worker_fetch"@,
            HandlerType::Scheduled => "_worker_scheduled"@,
            HandlerType::Start => "_worker_start"@,
            HandlerType::Queue => "_worker_queue"@,
        }
    }

    /// Only request handlers are raced against a cancellation signal.
    pub open spec fn cancellable(self) -> bool {
        self == HandlerType::Fetch
    }

    fn wrapper_str(self) -> (name: &'static str)
        ensures
            name@ == self.wrapper_name(),
    {
        match self {
            HandlerType::Fetch => "fetch",
            HandlerType::Scheduled => "scheduled",
            HandlerType::Start => "start",
            HandlerType::Queue => "queue",
        }
    }

    fn glue_str(self) -> (suffix: &'static str)
        ensures
            suffix@ == self.glue_suffix(),
    {
        match self {
            HandlerType::Fetch => "_fetch_glue",
            HandlerType::Scheduled => "_scheduled_glue",
            HandlerType::Start => "_start_glue",
            HandlerType::Queue => "_queue_glue",
        }
    }

    fn module_str(self) -> (name: &'static str)
        ensures
            name@ == self.module_name(),
    {
        match self {
            HandlerType::Fetch => "_worker_fetch",
            HandlerType::Scheduled => "_worker_scheduled",
            HandlerType::Start => "_worker_start",
            HandlerType::Queue => "_worker_queue",
        }
    }
}

impl HandlerConfig {
    /// What the entry point does when the handler fails. A request handler
    /// answers or raises, as its attributes ask; a queue handler always
    /// raises; the other kinds hand back nothing that could be inspected.
    pub open spec fn error_handling(self) -> Option<ErrorHandling> {
        match self.handler_type {
            HandlerType::Fetch => Some(
                if self.respond_with_errors {
                    ErrorHandling::Respond
                } else {
                    ErrorHandling::Raise
                },
            ),
            HandlerType::Queue => Some(ErrorHandling::Raise),
            HandlerType::Scheduled | HandlerType::Start => None,
        }
    }

    /// The plan of the entry point around the handler named `ident`.
    pub open spec fn expansion(self, ident: Seq<char>) -> ExpansionView {
        ExpansionView {
            handler_type: self.handler_type,
            handler_ident: ident + self.handler_type.glue_suffix(),
            wrapper_ident: self.handler_type.wrapper_name(),
            module_ident: self.handler_type.module_name(),
            runs_at_start: self.handler_type == HandlerType::Start,
            cancellable: self.handler_type.cancellable(),
            error_handling: self.error_handling(),
        }
    }

    /// The plan of the entry point around the handler named `ident`.
    pub fn plan(&self, ident: &str) -> (expansion: Expansion)
        ensures
            expansion@ == self.expansion(ident@),
    {
        let handler_type: HandlerType = self.handler_type;
        let error_handling: Option<ErrorHandling> = match handler_type {
            HandlerType::Fetch => Some(
                if self.respond_with_errors {
                    ErrorHandling::Respond
                } else {
                    ErrorHandling::Raise
                },
            ),
            HandlerType::Queue => Some(ErrorHandling::Raise),
            HandlerType::Scheduled | HandlerType::Start => None,
        };
        Expansion {
            handler_type,
            handler_ident: String::from_str(ident).concat(handler_type.glue_str()),
            wrapper_ident: String::from_str(handler_type.wrapper_str()),
            module_ident: String::from_str(handler_type.module_str()),
            runs_at_start: matches!(handler_type, HandlerType::Start),
            cancellable: matches!(handler_type, HandlerType::Fetch),
            error_handling,
        }
    }
}

/// Plans the entry point for the handler named `ident` that carries the
/// attributes `attrs`.
///
/// The attributes are read as [`parse_attributes`] reads them, and its errors
/// are handed on. The handler keeps its body under its name with the suffix
/// of its kind; the entry point takes the fixed name of the kind.
pub fn expand_macro(attrs: &Vec<String>, ident: &str, queue: bool) -> (result: Result<
    Expansion,
    AttributeError,
>)
    ensures
        match parse(names(attrs@), queue) {
            Ok(config) => result matches Ok(expansion) && expansion@ == config.expansion(ident@),
            Err(error) => result == Err::<Expansion, _>(error),
        },
{
    match parse_attributes(attrs, queue) {
        Ok(config) => Ok(config.plan(ident)),
        Err(error) => Err(error),
    }
}

} // verus!
