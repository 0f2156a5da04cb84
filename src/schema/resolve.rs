//! Resolution: from the syntax tree to the validated schema, following
//! `rules`.

use vstd::prelude::*;

use super::rules::{
    command_named, custom_type_named, event_named, field_named, lookup_event, param_named,
    resolve_aggregate, resolve_command, resolve_commands_from, resolve_custom_type,
    resolve_custom_types, resolve_custom_types_from, resolve_event, resolve_event_ref,
    resolve_event_refs_from, resolve_events, resolve_events_from, resolve_fields,
    resolve_fields_from, resolve_param, resolve_params_from, resolve_return_type, resolve_schema,
    resolve_type, resolve_type_opt, resolve_type_ref, schema_wf, type_declared,
};
use crate::theorems::law_resolved_schemas_are_well_formed;
use super::{
    Aggregate, Command, CommandEvents, CustomType, Event, EventOpt, Param, RepeatableType, Schema,
    SpecCommand, SpecCustomType, SpecEvent, SpecEventOpt, SpecField, SpecParam, TypeOpt, TypeRef,
};
use crate::error::{Error, SpecError};
use crate::parser;
use crate::parser::{lemma_views_push, views};

verus! {

/// `r` is the executable form of the resolution result `s`.
pub open spec fn agrees_result<T: View>(r: Result<T, Error>, s: Result<T::V, SpecError>) -> bool {
    match r {
        Ok(v) => s == Ok::<T::V, SpecError>(v@),
        Err(e) => s == Err::<T::V, SpecError>(e@),
    }
}

/// As `agrees_result`, for a list.
pub open spec fn agrees_list<T: View>(r: Result<Vec<T>, Error>, s: Result<Seq<T::V>, SpecError>) -> bool {
    match r {
        Ok(v) => s == Ok::<Seq<T::V>, SpecError>(views(v@)),
        Err(e) => s == Err::<Seq<T::V>, SpecError>(e@),
    }
}

/// Whether `a` and `b` hold the same characters.
pub fn same_text(a: &str, b: &str) -> (r: bool)
    ensures
        r == (a@ == b@),
{
    let n = a.unicode_len();
    if n != b.unicode_len() {
        return false;
    }
    let mut i: usize = 0;
    while i < n
        invariant
            n == a@.len(),
            n == b@.len(),
            i <= n,
            forall|j: int| 0 <= j < i ==> a@[j] == b@[j],
        decreases n - i,
    {
        if a.get_char(i) != b.get_char(i) {
            return false;
        }
        i = i + 1;
    }
    assert(a@ =~= b@);
    true
}

/// Whether a `type` block of `types` is named `name`.
fn type_is_declared<'i>(types: &Vec<parser::types::CustomType<'i>>, name: &str) -> (r: bool)
    ensures
        r == type_declared(views(types@), name@),
{
    let ghost tv = views(types@);
    let mut i: usize = 0;
    while i < types.len()
        invariant
            tv == views(types@),
            i <= types.len(),
            forall|j: int| 0 <= j < i ==> #[trigger] tv[j].ident != name@,
        decreases types.len() - i,
    {
        if same_text(types[i].ident, name) {
            assert(tv[i as int].ident == name@);
            return true;
        }
        i = i + 1;
    }
    false
}

/// Whether a field of `fields` is named `name`.
fn has_field(fields: &Vec<(String, RepeatableType)>, name: &str) -> (r: bool)
    ensures
        r == field_named(views(fields@), name@),
{
    let ghost fv = views(fields@);
    let mut i: usize = 0;
    while i < fields.len()
        invariant
            fv == views(fields@),
            i <= fields.len(),
            forall|j: int| 0 <= j < i ==> #[trigger] fv[j].0 != name@,
        decreases fields.len() - i,
    {
        if same_text(fields[i].0.as_str(), name) {
            assert(fv[i as int].0 == name@);
            return true;
        }
        i = i + 1;
    }
    false
}

/// Whether a custom type of `types` is named `name`.
fn has_custom_type(types: &Vec<CustomType>, name: &str) -> (r: bool)
    ensures
        r == custom_type_named(views(types@), name@),
{
    let ghost tv = views(types@);
    let mut i: usize = 0;
    while i < types.len()
        invariant
            tv == views(types@),
            i <= types.len(),
            forall|j: int| 0 <= j < i ==> #[trigger] tv[j].name != name@,
        decreases types.len() - i,
    {
        if same_text(types[i].name.as_str(), name) {
            assert(tv[i as int].name == name@);
            return true;
        }
        i = i + 1;
    }
    false
}

/// Whether an event of `events` is named `name`.
fn has_event(events: &Vec<Event>, name: &str) -> (r: bool)
    ensures
        r == event_named(views(events@), name@),
{
    let ghost ev = views(events@);
    let mut i: usize = 0;
    while i < events.len()
        invariant
            ev == views(events@),
            i <= events.len(),
            forall|j: int| 0 <= j < i ==> #[trigger] ev[j].name != name@,
        decreases events.len() - i,
    {
        if same_text(events[i].name.as_str(), name) {
            assert(ev[i as int].name == name@);
            return true;
        }
        i = i + 1;
    }
    false
}

/// Whether a parameter of `params` is named `name`.
fn has_param(params: &Vec<Param>, name: &str) -> (r: bool)
    ensures
        r == param_named(views(params@), name@),
{
    let ghost pv = views(params@);
    let mut i: usize = 0;
    while i < params.len()
        invariant
            pv == views(params@),
            i <= params.len(),
            forall|j: int| 0 <= j < i ==> #[trigger] pv[j].name != name@,
        decreases params.len() - i,
    {
        if same_text(params[i].name.as_str(), name) {
            assert(pv[i as int].name == name@);
            return true;
        }
        i = i + 1;
    }
    false
}

/// Whether a command of `commands` is named `name`.
fn has_command(commands: &Vec<Command>, name: &str) -> (r: bool)
    ensures
        r == command_named(views(commands@), name@),
{
    let ghost cv = views(commands@);
    let mut i: usize = 0;
    while i < commands.len()
        invariant
            cv == views(commands@),
            i <= commands.len(),
            forall|j: int| 0 <= j < i ==> #[trigger] cv[j].name != name@,
        decreases commands.len() - i,
    {
        if same_text(commands[i].name.as_str(), name) {
            assert(cv[i as int].name == name@);
            return true;
        }
        i = i + 1;
    }
    false
}

impl TypeRef {
    /// A copy of this reference.
    pub fn copied(&self) -> (r: TypeRef)
        ensures
            r@ == self@,
    {
        match self {
            TypeRef::Scalar(k) => TypeRef::Scalar(*k),
            TypeRef::Custom(n) => TypeRef::Custom(n.clone()),
        }
    }

    /// Resolves a scalar or a user type's name; the name must be declared by a
    /// `type` block of `custom_types`.
    pub fn from_scalar_or_user_type<'i>(
        custom_types: &Vec<parser::types::CustomType<'i>>,
        type_ref: &parser::types::ScalarOrUserType<'i>,
    ) -> (r: Result<TypeRef, Error>)
        ensures
            agrees_result(r, resolve_type_ref(views(custom_types@), type_ref@)),
    {
        match type_ref {
            parser::types::ScalarOrUserType::Scalar(k) => Ok(TypeRef::Scalar(*k)),
            parser::types::ScalarOrUserType::UserDefined(name) => {
                if type_is_declared(custom_types, name) {
                    Ok(TypeRef::Custom((*name).to_owned()))
                } else {
                    Err(Error::TypeNotDefined((*name).to_owned()))
                }
            },
        }
    }
}

impl TypeOpt {
    /// A copy of this type.
    pub fn copied(&self) -> (r: TypeOpt)
        ensures
            r@ == self@,
    {
        match self {
            TypeOpt::Optional(t) => TypeOpt::Optional(t.copied()),
            TypeOpt::Required(t) => TypeOpt::Required(t.copied()),
        }
    }

    /// Resolves a type reference, keeping its optionality.
    pub fn from_optional_or_required_type<'i>(
        custom_types: &Vec<parser::types::CustomType<'i>>,
        ty: &parser::types::OptionalOrRequiredType<'i>,
    ) -> (r: Result<TypeOpt, Error>)
        ensures
            agrees_result(r, resolve_type_opt(views(custom_types@), ty@)),
    {
        match ty {
            parser::types::OptionalOrRequiredType::Optional(t) => {
                let t = TypeRef::from_scalar_or_user_type(custom_types, t)?;
                Ok(TypeOpt::Optional(t))
            },
            parser::types::OptionalOrRequiredType::Required(t) => {
                let t = TypeRef::from_scalar_or_user_type(custom_types, t)?;
                Ok(TypeOpt::Required(t))
            },
        }
    }
}

impl RepeatableType {
    /// A copy of this type.
    pub fn copied(&self) -> (r: RepeatableType)
        ensures
            r@ == self@,
    {
        match self {
            RepeatableType::Single(t) => RepeatableType::Single(t.copied()),
            RepeatableType::OptionalArray(t) => RepeatableType::OptionalArray(t.copied()),
            RepeatableType::RequiredArray(t) => RepeatableType::RequiredArray(t.copied()),
        }
    }

    /// Resolves a single or array type.
    pub fn from_type<'i>(
        custom_types: &Vec<parser::types::CustomType<'i>>,
        ty: &parser::types::Type<'i>,
    ) -> (r: Result<RepeatableType, Error>)
        ensures
            agrees_result(r, resolve_type(views(custom_types@), ty@)),
    {
        match ty {
            parser::types::Type::Single(t) => {
                let t = TypeOpt::from_optional_or_required_type(custom_types, t)?;
                Ok(RepeatableType::Single(t))
            },
            parser::types::Type::Array { inner, optional } => {
                let t = TypeOpt::from_optional_or_required_type(custom_types, inner)?;
                if *optional {
                    Ok(RepeatableType::OptionalArray(t))
                } else {
                    Ok(RepeatableType::RequiredArray(t))
                }
            },
        }
    }
}

/// Resolves the fields of the event (`in_event`) or custom type named
/// `owner`.
fn fields_from<'i>(
    custom_types: &Vec<parser::types::CustomType<'i>>,
    owner: &str,
    in_event: bool,
    fields: &Vec<parser::event::Field<'i>>,
) -> (r: Result<Vec<(String, RepeatableType)>, Error>)
    ensures
        agrees_list(r, resolve_fields(views(custom_types@), owner@, in_event, views(fields@))),
{
    let ghost tv = views(custom_types@);
    let ghost all = views(fields@);
    let mut acc: Vec<(String, RepeatableType)> = Vec::new();
    assert(all.skip(0) =~= all);
    assert(views(acc@) =~= Seq::<SpecField>::empty());
    let n = fields.len();
    let mut i: usize = 0;
    while i < n
        invariant
            n == fields.len(),
            i <= n,
            all == views(fields@),
            tv == views(custom_types@),
            resolve_fields(tv, owner@, in_event, all) == resolve_fields_from(
                tv,
                owner@,
                in_event,
                all.skip(i as int),
                views(acc@),
            ),
        decreases n - i,
    {
        let f = &fields[i];
        assert(all.skip(i as int)[0] == f@);
        assert(all.skip(i as int).drop_first() =~= all.skip(i + 1));
        let ty = RepeatableType::from_type(custom_types, &f.ty)?;
        if has_field(&acc, f.ident) {
            let field = f.ident.to_owned();
            let owner = owner.to_owned();
            if in_event {
                return Err(Error::DuplicateEventField { event: owner, field });
            } else {
                return Err(Error::DuplicateCustomTypeField { ty: owner, field });
            }
        }
        let entry = (f.ident.to_owned(), ty);
        proof {
            lemma_views_push(acc@, entry);
        }
        acc.push(entry);
        i = i + 1;
    }
    assert(all.skip(n as int) =~= Seq::<parser::event::RawField>::empty());
    Ok(acc)
}

impl CustomType {
    /// Resolves a `type` block: each field's type, with each field name used
    /// once.
    pub fn from_custom_type<'i>(
        custom_types: &Vec<parser::types::CustomType<'i>>,
        ty: &parser::types::CustomType<'i>,
    ) -> (r: Result<CustomType, Error>)
        ensures
            agrees_result(r, resolve_custom_type(views(custom_types@), ty@)),
    {
        let fields = fields_from(custom_types, ty.ident, false, &ty.fields)?;
        Ok(CustomType { name: ty.ident.to_owned(), fields })
    }
}

impl Event {
    /// A copy of this event.
    pub fn copied(&self) -> (r: Event)
        ensures
            r@ == self@,
    {
        let mut fields: Vec<(String, RepeatableType)> = Vec::new();
        let mut i: usize = 0;
        while i < self.fields.len()
            invariant
                i <= self.fields.len(),
                views(fields@) == views(self.fields@).take(i as int),
            decreases self.fields.len() - i,
        {
            let entry = (self.fields[i].0.clone(), self.fields[i].1.copied());
            proof {
                lemma_views_push(fields@, entry);
                assert(views(self.fields@).take(i + 1) =~= views(self.fields@).take(i as int).push(
                    entry@,
                ));
            }
            fields.push(entry);
            i = i + 1;
        }
        assert(views(self.fields@).take(self.fields.len() as int) =~= views(self.fields@));
        Event { name: self.name.clone(), fields }
    }

    /// Resolves an `event` block: each field's type, with each field name used
    /// once.
    pub fn from_event<'i>(
        custom_types: &Vec<parser::types::CustomType<'i>>,
        event: &parser::event::Event<'i>,
    ) -> (r: Result<Event, Error>)
        ensures
            agrees_result(r, resolve_event(views(custom_types@), event@)),
    {
        let fields = fields_from(custom_types, event.ident, true, &event.fields)?;
        Ok(Event { name: event.ident.to_owned(), fields })
    }
}

/// A copy of the first event of `events` named `name`.
fn find_event(events: &Vec<Event>, name: &str) -> (r: Option<Event>)
    ensures
        match r {
            Some(e) => lookup_event(views(events@), name@) == Some(e@),
            None => lookup_event(views(events@), name@) is None,
        },
{
    let ghost all = views(events@);
    let mut i: usize = 0;
    assert(all.skip(0) =~= all);
    while i < events.len()
        invariant
            i <= events.len(),
            all == views(events@),
            lookup_event(all, name@) == lookup_event(all.skip(i as int), name@),
        decreases events.len() - i,
    {
        assert(all.skip(i as int)[0] == events@[i as int]@);
        assert(all.skip(i as int).drop_first() =~= all.skip(i + 1));
        if same_text(events[i].name.as_str(), name) {
            return Some(events[i].copied());
        }
        i = i + 1;
    }
    None
}

impl EventOpt {
    /// Resolves a returned event by its name in the resolved `events`,
    /// keeping its optionality.
    pub fn from_return_type_optional_or_required<'i>(
        return_type_optional_or_required: &parser::aggregate::ReturnTypeOptionalOrRequired<'i>,
        events: &Vec<Event>,
    ) -> (r: Result<EventOpt, Error>)
        ensures
            agrees_result(r, resolve_event_ref(views(events@), return_type_optional_or_required@)),
    {
        match return_type_optional_or_required {
            parser::aggregate::ReturnTypeOptionalOrRequired::Optional(name) => {
                match find_event(events, name) {
                    Some(e) => Ok(EventOpt::Optional(e)),
                    None => Err(Error::EventNotDefined((*name).to_owned())),
                }
            },
            parser::aggregate::ReturnTypeOptionalOrRequired::Required(name) => {
                match find_event(events, name) {
                    Some(e) => Ok(EventOpt::Required(e)),
                    None => Err(Error::EventNotDefined((*name).to_owned())),
                }
            },
        }
    }
}

impl CommandEvents {
    /// Resolves a command's return type: every event it names must be among
    /// `events`, and the first that is not is the error.
    pub fn from_return_type<'i>(
        return_type: &parser::aggregate::ReturnType<'i>,
        events: &Vec<Event>,
    ) -> (r: Result<CommandEvents, Error>)
        ensures
            agrees_result(r, resolve_return_type(views(events@), return_type@)),
    {
        match return_type {
            parser::aggregate::ReturnType::Single(x) => {
                let e = EventOpt::from_return_type_optional_or_required(x, events)?;
                Ok(CommandEvents::Single(e))
            },
            parser::aggregate::ReturnType::Tuple(xs) => {
                let ghost ev = views(events@);
                let ghost all = views(xs@);
                assert(return_type@ == parser::aggregate::RawReturnType::Tuple(all));
                let mut acc: Vec<EventOpt> = Vec::new();
                assert(all.skip(0) =~= all);
                assert(views(acc@) =~= Seq::<SpecEventOpt>::empty());
                let mut i: usize = 0;
                while i < xs.len()
                    invariant
                        i <= xs.len(),
                        all == views(xs@),
                        return_type@ == parser::aggregate::RawReturnType::Tuple(all),
                        ev == views(events@),
                        resolve_event_refs_from(ev, all, Seq::empty()) == resolve_event_refs_from(
                            ev,
                            all.skip(i as int),
                            views(acc@),
                        ),
                    decreases xs.len() - i,
                {
                    assert(all.skip(i as int)[0] == xs@[i as int]@);
                    assert(all.skip(i as int).drop_first() =~= all.skip(i + 1));
                    let e = match EventOpt::from_return_type_optional_or_required(&xs[i], events) {
                        Ok(e) => e,
                        Err(err) => {
                            assert(resolve_event_refs_from(ev, all.skip(i as int), views(acc@))
                                == Err::<Seq<SpecEventOpt>, SpecError>(err@));
                            return Err(err);
                        },
                    };
                    proof {
                        lemma_views_push(acc@, e);
                    }
                    acc.push(e);
                    i = i + 1;
                }
                assert(all.skip(xs.len() as int) =~= Seq::<
                    parser::aggregate::RawEventRef,
                >::empty());
                Ok(CommandEvents::Tuple(acc))
            },
        }
    }
}

impl Param {
    /// Resolves a parameter's type.
    pub fn from_param<'i>(
        custom_types: &Vec<parser::types::CustomType<'i>>,
        param: &parser::aggregate::Param<'i>,
    ) -> (r: Result<Param, Error>)
        ensures
            agrees_result(r, resolve_param(views(custom_types@), param@)),
    {
        let ty = RepeatableType::from_type(custom_types, &param.ty)?;
        Ok(Param { name: param.ident.to_owned(), ty })
    }
}

impl Command {
    /// Resolves a command: its parameters, each name used once, then the
    /// events it returns.
    pub fn from_command<'i>(
        command: &parser::aggregate::Command<'i>,
        custom_types: &Vec<parser::types::CustomType<'i>>,
        events: &Vec<Event>,
    ) -> (r: Result<Command, Error>)
        ensures
            agrees_result(r, resolve_command(views(custom_types@), views(events@), command@)),
    {
        let ghost tv = views(custom_types@);
        let ghost all = views(command.params@);
        let mut params: Vec<Param> = Vec::new();
        assert(all.skip(0) =~= all);
        assert(views(params@) =~= Seq::<SpecParam>::empty());
        let mut i: usize = 0;
        while i < command.params.len()
            invariant
                i <= command.params.len(),
                all == views(command.params@),
                tv == views(custom_types@),
                resolve_params_from(tv, command.ident@, all, Seq::empty()) == resolve_params_from(
                    tv,
                    command.ident@,
                    all.skip(i as int),
                    views(params@),
                ),
            decreases command.params.len() - i,
        {
            let p = &command.params[i];
            assert(all.skip(i as int)[0] == p@);
            assert(all.skip(i as int).drop_first() =~= all.skip(i + 1));
            if has_param(&params, p.ident) {
                return Err(
                    Error::DuplicateParam {
                        command: command.ident.to_owned(),
                        param: p.ident.to_owned(),
                    },
                );
            }
            let param = Param::from_param(custom_types, p)?;
            proof {
                lemma_views_push(params@, param);
            }
            params.push(param);
            i = i + 1;
        }
        assert(all.skip(command.params.len() as int) =~= Seq::<
            parser::aggregate::RawParam,
        >::empty());
        let evs = CommandEvents::from_return_type(&command.return_type, events)?;
        Ok(Command { name: command.ident.to_owned(), params, events: evs })
    }
}

impl Aggregate {
    /// Resolves an aggregate: each command, with each command name used once.
    pub fn from_aggregate<'i>(
        aggregate: &parser::aggregate::Aggregate<'i>,
        custom_types: &Vec<parser::types::CustomType<'i>>,
        events: &Vec<Event>,
    ) -> (r: Result<Aggregate, Error>)
        ensures
            agrees_result(r, resolve_aggregate(views(custom_types@), views(events@), aggregate@)),
    {
        let ghost tv = views(custom_types@);
        let ghost ev = views(events@);
        let ghost all = views(aggregate.commands@);
        let mut commands: Vec<Command> = Vec::new();
        assert(all.skip(0) =~= all);
        assert(views(commands@) =~= Seq::<SpecCommand>::empty());
        let mut i: usize = 0;
        while i < aggregate.commands.len()
            invariant
                i <= aggregate.commands.len(),
                all == views(aggregate.commands@),
                tv == views(custom_types@),
                ev == views(events@),
                resolve_commands_from(tv, ev, all, Seq::empty()) == resolve_commands_from(
                    tv,
                    ev,
                    all.skip(i as int),
                    views(commands@),
                ),
            decreases aggregate.commands.len() - i,
        {
            let c = &aggregate.commands[i];
            assert(all.skip(i as int)[0] == c@);
            assert(all.skip(i as int).drop_first() =~= all.skip(i + 1));
            let command = Command::from_command(c, custom_types, events)?;
            if has_command(&commands, command.name.as_str()) {
                return Err(Error::DuplicateCommand(command.name));
            }
            proof {
                lemma_views_push(commands@, command);
            }
            commands.push(command);
            i = i + 1;
        }
        assert(all.skip(aggregate.commands.len() as int) =~= Seq::<
            parser::aggregate::RawCommand,
        >::empty());
        Ok(Aggregate { name: aggregate.ident.to_owned(), commands })
    }
}

/// Resolves every `type` block, with each type name used once.
fn custom_types_from<'i>(custom_types: &Vec<parser::types::CustomType<'i>>) -> (r: Result<
    Vec<CustomType>,
    Error,
>)
    ensures
        agrees_list(r, resolve_custom_types(views(custom_types@))),
{
    let ghost all = views(custom_types@);
    let mut acc: Vec<CustomType> = Vec::new();
    assert(all.skip(0) =~= all);
    assert(views(acc@) =~= Seq::<SpecCustomType>::empty());
    let mut i: usize = 0;
    while i < custom_types.len()
        invariant
            i <= custom_types.len(),
            all == views(custom_types@),
            resolve_custom_types(all) == resolve_custom_types_from(
                all,
                all.skip(i as int),
                views(acc@),
            ),
        decreases custom_types.len() - i,
    {
        assert(all.skip(i as int)[0] == custom_types@[i as int]@);
        assert(all.skip(i as int).drop_first() =~= all.skip(i + 1));
        let t = CustomType::from_custom_type(custom_types, &custom_types[i])?;
        if has_custom_type(&acc, t.name.as_str()) {
            return Err(Error::DuplicateCustomType(t.name));
        }
        proof {
            lemma_views_push(acc@, t);
        }
        acc.push(t);
        i = i + 1;
    }
    assert(all.skip(custom_types.len() as int) =~= Seq::<parser::types::RawCustomType>::empty());
    Ok(acc)
}

/// Resolves every `event` block, with each event name used once.
fn events_from<'i>(
    custom_types: &Vec<parser::types::CustomType<'i>>,
    events: &Vec<parser::event::Event<'i>>,
) -> (r: Result<Vec<Event>, Error>)
    ensures
        agrees_list(r, resolve_events(views(custom_types@), views(events@))),
{
    let ghost tv = views(custom_types@);
    let ghost all = views(events@);
    let mut acc: Vec<Event> = Vec::new();
    assert(all.skip(0) =~= all);
    assert(views(acc@) =~= Seq::<SpecEvent>::empty());
    let mut i: usize = 0;
    while i < events.len()
        invariant
            i <= events.len(),
            all == views(events@),
            tv == views(custom_types@),
            resolve_events(tv, all) == resolve_events_from(tv, all.skip(i as int), views(acc@)),
        decreases events.len() - i,
    {
        assert(all.skip(i as int)[0] == events@[i as int]@);
        assert(all.skip(i as int).drop_first() =~= all.skip(i + 1));
        let e = Event::from_event(custom_types, &events[i])?;
        if has_event(&acc, e.name.as_str()) {
            return Err(Error::DuplicateEvent(e.name));
        }
        proof {
            lemma_views_push(acc@, e);
        }
        acc.push(e);
        i = i + 1;
    }
    assert(all.skip(events.len() as int) =~= Seq::<parser::event::RawEvent>::empty());
    Ok(acc)
}

impl Schema {
    /// Validates a syntax tree: resolves its custom types, then its events,
    /// then its one aggregate, then takes its one version. The first error
    /// met is the result.
    pub fn validate_parsed_schema<'i>(schema: parser::schema::Schema<'i>) -> (r: Result<
        Schema,
        Error,
    >)
        ensures
            agrees_result(r, resolve_schema(schema@)),
            r matches Ok(s) ==> schema_wf(s@),
    {
        proof {
            if resolve_schema(schema@) is Ok {
                law_resolved_schemas_are_well_formed(schema@);
            }
        }
        let types = custom_types_from(&schema.types)?;
        let events = events_from(&schema.types, &schema.events)?;
        if schema.aggregates.len() > 1 {
            return Err(Error::MultipleAggregates);
        }
        if schema.aggregates.len() == 0 {
            return Err(Error::MissingAggregate);
        }
        let aggregate = Aggregate::from_aggregate(&schema.aggregates[0], &schema.types, &events)?;
        if schema.versions.len() > 1 {
            return Err(Error::MultipleVersions);
        }
        let mut versions = schema.versions;
        let version = match versions.pop() {
            Some(v) => v,
            None => return Err(Error::MissingVersion),
        };
        Ok(Schema { version, aggregate, events, types })
    }
}

impl std::str::FromStr for Schema {
    type Err = Error;

    /// Parses and validates a document, as `crate::parse` does.
    fn from_str(s: &str) -> Result<Schema, Error> {
        crate::parse(s)
    }
}

} // verus!
