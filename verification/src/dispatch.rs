//! The dispatch protocol: immutable descriptor tables built at construction,
//! name and alias resolution, and routed read/write/invoke operations.
//!
//! A `Dispatcher` owns the tables and a user-supplied `Description`; it
//! refuses malformed host input (bad ordinals, bad alias indexes, wrong
//! argument counts) with the structured errors of `crate::errors`, and it is
//! the one place where those errors collapse into the host's boolean
//! convention (see the `host_*` operations).

use vstd::prelude::*;

use crate::descriptors::ParamType;
use crate::errors::{MethodError, NativeApiError, ParameterError, PropertyError};
use crate::ffi::connection::Connection;
use crate::ffi::memory_manager::MemoryManager;
use crate::ffi::provided_types::{decode, decode_all, variant_wf, TVariant};
use crate::interface::{copy_plain, AddInWrapper, ParamValue, ParamValues, ValueModel};

verus! {

/// Static metadata of one property.
#[derive(Debug, Clone)]
pub struct PropertyDescriptor {
    /// Stable identity of this property: its position in the table.
    pub ordinal: usize,
    /// Names under which the property resolves: primary first, localized after.
    pub aliases: Vec<Vec<u16>>,
    pub readable: bool,
    pub writable: bool,
}

/// Static metadata of one method parameter.
#[derive(Debug, Clone)]
pub struct ParamDescriptor {
    /// Declared platform type of the parameter.
    pub ty: ParamType,
    /// Default value substituted when a trailing argument is omitted;
    /// parameters without one are required.
    pub default_value: Option<ParamValue>,
}

/// Static metadata of one method.
#[derive(Debug, Clone)]
pub struct MethodDescriptor {
    /// Stable identity of this method: its position in the table.
    pub ordinal: usize,
    /// Names under which the method resolves: primary first, localized after.
    pub aliases: Vec<Vec<u16>>,
    /// Parameters in call order.
    pub params: Vec<ParamDescriptor>,
    /// Declared return type; a procedure declares none.
    pub return_type: Option<ParamType>,
}

/// The component description the dispatch protocol routes to: the
/// user-supplied behavior behind the descriptor tables.
pub trait Description: Sized {
    /// The value of the property at `ordinal`.
    fn read(&self, ordinal: usize) -> Result<ParamValue, NativeApiError>;

    /// Stores a value into the property at `ordinal`.
    fn write(&mut self, ordinal: usize, val: &ParamValue) -> Result<(), NativeApiError>;

    /// Runs the method at `ordinal` over a fully substituted argument list;
    /// a procedure reports `Empty`.
    fn invoke(&mut self, ordinal: usize, args: &ParamValues) -> Result<ParamValue, NativeApiError>;
}

/// Whether an alias set contains `name`; the empty name matches nothing.
pub open spec fn name_matches(aliases: Seq<Seq<u16>>, name: Seq<u16>) -> bool {
    name.len() > 0 && exists|j: int| 0 <= j < aliases.len() && aliases[j] == name
}

/// Whether every parameter from position `from` on declares a default.
pub open spec fn defaults_available(params: Seq<ParamDescriptor>, from: int) -> bool {
    forall|k: int| from <= k < params.len() ==> params[k].default_value is Some
}

/// The default of one parameter, at the model level.
pub open spec fn default_of(p: ParamDescriptor) -> ValueModel {
    match p.default_value {
        Some(v) => v@,
        None => ValueModel::Empty,
    }
}

/// Validates a call's argument list against a method's parameters and
/// substitutes the declared defaults for the omitted trailing parameters.
/// The result is, element for element, the given arguments followed by the
/// defaults of the omitted parameters; it is exactly the list the dispatch
/// protocol hands to the component description.
pub fn substitute_defaults(m: &MethodDescriptor, args: &ParamValues) -> (r: Result<
    ParamValues,
    NativeApiError,
>)
    ensures
        args@.len() > m.params@.len() ==> r == Err::<ParamValues, NativeApiError>(
            NativeApiError::Parameter(
                ParameterError::TooMany {
                    expected: m.params@.len() as usize,
                    actual: args@.len() as usize,
                },
            ),
        ),
        args@.len() <= m.params@.len() && !defaults_available(m.params@, args@.len() as int) ==> (
        r matches Err(e) && e matches NativeApiError::Parameter(
            ParameterError::MissingRequired { name },
        ) && name@ == Seq::<char>::empty()),
        args@.len() <= m.params@.len() && defaults_available(m.params@, args@.len() as int) ==> (
        r matches Ok(full) && full@ == args@ + Seq::new(
            (m.params@.len() - args@.len()) as nat,
            |j: int| default_of(m.params@[args@.len() + j]),
        )),
{
    if args.len() > m.params.len() {
        return Err(
            NativeApiError::Parameter(
                ParameterError::TooMany { expected: m.params.len(), actual: args.len() },
            ),
        );
    }
    let mut full: Vec<ParamValue> = Vec::new();
    let mut i: usize = 0;
    while i < args.len()
        invariant
            i <= args@.len(),
            full@.len() == i,
            forall|t: int| 0 <= t < i ==> (#[trigger] full@[t])@ == args@[t],
        decreases args@.len() - i,
    {
        full.push(args.get(i).duplicate());
        i = i + 1;
    }
    let mut k: usize = args.len();
    while k < m.params.len()
        invariant
            args@.len() <= k <= m.params@.len(),
            full@.len() == k,
            forall|t: int| 0 <= t < args@.len() ==> (#[trigger] full@[t])@ == args@[t],
            forall|t: int|
                args@.len() <= t < k ==> (#[trigger] m.params@[t]).default_value is Some,
            forall|t: int|
                args@.len() <= t < k ==> (#[trigger] full@[t])@ == default_of(m.params@[t]),
        decreases m.params@.len() - k,
    {
        match &m.params[k].default_value {
            Some(v) => {
                full.push(v.duplicate());
            },
            None => {
                return Err(
                    NativeApiError::Parameter(
                        ParameterError::MissingRequired { name: String::new() },
                    ),
                );
            },
        }
        k = k + 1;
    }
    proof {
        let target = args@ + Seq::new(
            (m.params@.len() - args@.len()) as nat,
            |j: int| default_of(m.params@[args@.len() + j]),
        );
        assert forall|t: int| 0 <= t < full@.len() implies full.deep_view()[t] == target[t] by {
            assert(full.deep_view()[t] == full@[t].deep_view());
            assert(full@[t].deep_view() == full@[t]@);
            if t >= args@.len() {
                assert(target[t] == default_of(m.params@[t]));
            }
        }
        assert(full.deep_view() =~= target);
    }
    Ok(ParamValues::new(full))
}

/// Compares two UTF-16 sequences.
fn u16_slice_eq(a: &[u16], b: &[u16]) -> (r: bool)
    ensures
        r == (a@ == b@),
{
    if a.len() != b.len() {
        assert(a@ != b@);
        return false;
    }
    let mut i: usize = 0;
    while i < a.len()
        invariant
            i <= a@.len(),
            a@.len() == b@.len(),
            forall|k: int| 0 <= k < i ==> a@[k] == b@[k],
        decreases a@.len() - i,
    {
        if a[i] != b[i] {
            return false;
        }
        i = i + 1;
    }
    assert(a@ =~= b@);
    true
}

/// Whether `name` stands in this alias list; the empty name matches nothing.
fn alias_list_contains(aliases: &Vec<Vec<u16>>, name: &[u16]) -> (r: bool)
    requires
        name@.len() > 0,
    ensures
        r == name_matches(aliases.deep_view(), name@),
{
    let mut j: usize = 0;
    while j < aliases.len()
        invariant
            j <= aliases@.len(),
            name@.len() > 0,
            forall|t: int| 0 <= t < j ==> aliases.deep_view()[t] != name@,
        decreases aliases@.len() - j,
    {
        proof {
            assert(aliases.deep_view()[j as int] =~= aliases@[j as int]@);
        }
        if u16_slice_eq(aliases[j].as_slice(), name) {
            assert(aliases.deep_view()[j as int] == name@);
            return true;
        }
        j = j + 1;
    }
    false
}

/// The dispatch protocol over a description `D`.
pub struct Dispatcher<D> {
    props: Vec<PropertyDescriptor>,
    methods: Vec<MethodDescriptor>,
    description: D,
    reg_name: Vec<u16>,
    connection: Option<&'static Connection>,
}

impl<D: Description> Dispatcher<D> {
    /// The property table.
    pub closed spec fn props_seq(&self) -> Seq<PropertyDescriptor> {
        self.props@
    }

    /// The method table.
    pub closed spec fn methods_seq(&self) -> Seq<MethodDescriptor> {
        self.methods@
    }

    /// The routed-to description.
    pub closed spec fn description_spec(&self) -> D {
        self.description
    }

    /// The registration name.
    pub closed spec fn reg_name_spec(&self) -> Seq<u16> {
        self.reg_name@
    }

    /// Whether a host connection is held.
    pub closed spec fn connected(&self) -> bool {
        self.connection is Some
    }

    /// The alias set of the property at `i`.
    pub open spec fn prop_aliases(&self, i: int) -> Seq<Seq<u16>> {
        self.props_seq()[i].aliases.deep_view()
    }

    /// The alias set of the method at `i`.
    pub open spec fn method_aliases(&self, i: int) -> Seq<Seq<u16>> {
        self.methods_seq()[i].aliases.deep_view()
    }

    /// Each descriptor's ordinal is its table position.
    pub open spec fn wf(&self) -> bool {
        &&& forall|i: int|
            0 <= i < self.props_seq().len() ==> (#[trigger] self.props_seq()[i]).ordinal == i
        &&& forall|i: int|
            0 <= i < self.methods_seq().len() ==> (#[trigger] self.methods_seq()[i]).ordinal == i
    }

    /// The descriptor tables and the other state the host cannot change.
    pub open spec fn same_tables(&self, other: &Self) -> bool {
        &&& self.props_seq() == other.props_seq()
        &&& self.methods_seq() == other.methods_seq()
        &&& self.reg_name_spec() == other.reg_name_spec()
        &&& self.connected() == other.connected()
    }

    /// Builds the dispatch tables over a description.  Each descriptor gets
    /// its table position as its ordinal; everything else is kept as given.
    pub fn new(
        props: Vec<PropertyDescriptor>,
        methods: Vec<MethodDescriptor>,
        description: D,
        reg_name: Vec<u16>,
    ) -> (r: Self)
        ensures
            r.wf(),
            r.props_seq().len() == props@.len(),
            forall|i: int|
                0 <= i < props@.len() ==> (#[trigger] r.props_seq()[i]) == (PropertyDescriptor {
                    ordinal: i as usize,
                    ..props@[i]
                }),
            r.methods_seq().len() == methods@.len(),
            forall|i: int|
                0 <= i < methods@.len() ==> (#[trigger] r.methods_seq()[i]) == (MethodDescriptor {
                    ordinal: i as usize,
                    ..methods@[i]
                }),
            r.description_spec() == description,
            r.reg_name_spec() == reg_name@,
            !r.connected(),
    {
        let ghost orig_props = props@;
        let ghost orig_methods = methods@;
        let mut rest_p = props;
        let mut fixed_p: Vec<PropertyDescriptor> = Vec::new();
        while rest_p.len() > 0
            invariant
                fixed_p@.len() + rest_p@.len() == orig_props.len(),
                rest_p@ == orig_props.subrange(fixed_p@.len() as int, orig_props.len() as int),
                forall|i: int|
                    0 <= i < fixed_p@.len() ==> (#[trigger] fixed_p@[i]) == (PropertyDescriptor {
                        ordinal: i as usize,
                        ..orig_props[i]
                    }),
                forall|i: int| 0 <= i < fixed_p@.len() ==> (#[trigger] fixed_p@[i]).ordinal == i,
            decreases rest_p@.len(),
        {
            let mut d = rest_p.remove(0);
            d.ordinal = fixed_p.len();
            fixed_p.push(d);
            proof {
                assert(rest_p@ =~= orig_props.subrange(
                    fixed_p@.len() as int,
                    orig_props.len() as int,
                ));
            }
        }
        let mut rest_m = methods;
        let mut fixed_m: Vec<MethodDescriptor> = Vec::new();
        while rest_m.len() > 0
            invariant
                fixed_m@.len() + rest_m@.len() == orig_methods.len(),
                rest_m@ == orig_methods.subrange(fixed_m@.len() as int, orig_methods.len() as int),
                forall|i: int|
                    0 <= i < fixed_m@.len() ==> (#[trigger] fixed_m@[i]) == (MethodDescriptor {
                        ordinal: i as usize,
                        ..orig_methods[i]
                    }),
                forall|i: int| 0 <= i < fixed_m@.len() ==> (#[trigger] fixed_m@[i]).ordinal == i,
            decreases rest_m@.len(),
        {
            let mut d = rest_m.remove(0);
            d.ordinal = fixed_m.len();
            fixed_m.push(d);
            proof {
                assert(rest_m@ =~= orig_methods.subrange(
                    fixed_m@.len() as int,
                    orig_methods.len() as int,
                ));
            }
        }
        Dispatcher {
            props: fixed_p,
            methods: fixed_m,
            description,
            reg_name,
            connection: None,
        }
    }

    /// Accepts the host connection and holds it for the session; the
    /// dispatcher never refuses initialization.
    pub fn connect(&mut self, interface: &'static Connection) -> (r: bool)
        ensures
            final(self).props_seq() == old(self).props_seq(),
            final(self).methods_seq() == old(self).methods_seq(),
            final(self).reg_name_spec() == old(self).reg_name_spec(),
            final(self).description_spec() == old(self).description_spec(),
            final(self).connected(),
            r == true,
    {
        self.connection = Some(interface);
        true
    }

    /// Ends the session and lets go of the host connection.
    pub fn disconnect(&mut self)
        ensures
            final(self).props_seq() == old(self).props_seq(),
            final(self).methods_seq() == old(self).methods_seq(),
            final(self).reg_name_spec() == old(self).reg_name_spec(),
            final(self).description_spec() == old(self).description_spec(),
            !final(self).connected(),
    {
        self.connection = None;
    }

    /// The name under which the component registers, as UTF-16 code units.
    pub fn registration_name(&self) -> (r: &[u16])
        ensures
            r@ == self.reg_name_spec(),
    {
        self.reg_name.as_slice()
    }

    /// Number of properties.
    pub fn property_count(&self) -> (r: usize)
        ensures
            r == self.props_seq().len(),
    {
        self.props.len()
    }

    /// Number of methods.
    pub fn method_count(&self) -> (r: usize)
        ensures
            r == self.methods_seq().len(),
    {
        self.methods.len()
    }

    /// Resolves a property name: the first-constructed descriptor whose
    /// alias set contains `name`, matched exactly and case-sensitively;
    /// empty and unmatched names resolve to nothing.
    pub fn find_property(&self, name: &[u16]) -> (r: Option<usize>)
        ensures
            r matches Some(i) ==> i < self.props_seq().len() && name_matches(
                self.prop_aliases(i as int),
                name@,
            ) && forall|k: int| 0 <= k < i ==> !name_matches(self.prop_aliases(k), name@),
            r is None ==> forall|k: int|
                0 <= k < self.props_seq().len() ==> !name_matches(self.prop_aliases(k), name@),
    {
        if name.len() == 0 {
            return None;
        }
        let mut i: usize = 0;
        while i < self.props.len()
            invariant
                i <= self.props_seq().len(),
                name@.len() > 0,
                forall|k: int| 0 <= k < i ==> !name_matches(self.prop_aliases(k), name@),
            decreases self.props_seq().len() - i,
        {
            if alias_list_contains(&self.props[i].aliases, name) {
                return Some(i);
            }
            i = i + 1;
        }
        None
    }

    /// Resolves a method name: the first-constructed descriptor whose alias
    /// set contains `name`, matched exactly and case-sensitively; empty and
    /// unmatched names resolve to nothing.
    pub fn find_method(&self, name: &[u16]) -> (r: Option<usize>)
        ensures
            r matches Some(i) ==> i < self.methods_seq().len() && name_matches(
                self.method_aliases(i as int),
                name@,
            ) && forall|k: int| 0 <= k < i ==> !name_matches(self.method_aliases(k), name@),
            r is None ==> forall|k: int|
                0 <= k < self.methods_seq().len() ==> !name_matches(self.method_aliases(k), name@),
    {
        if name.len() == 0 {
            return None;
        }
        let mut i: usize = 0;
        while i < self.methods.len()
            invariant
                i <= self.methods_seq().len(),
                name@.len() > 0,
                forall|k: int| 0 <= k < i ==> !name_matches(self.method_aliases(k), name@),
            decreases self.methods_seq().len() - i,
        {
            if alias_list_contains(&self.methods[i].aliases, name) {
                return Some(i);
            }
            i = i + 1;
        }
        None
    }

    /// One alias of one property, the way the host enumerates names:
    /// nothing when either index is out of range.
    pub fn property_name(&self, num: usize, alias: usize) -> (r: Option<Vec<u16>>)
        ensures
            num < self.props_seq().len() && alias < self.prop_aliases(num as int).len() ==> (
            r matches Some(v) && v@ == self.prop_aliases(num as int)[alias as int]),
            !(num < self.props_seq().len() && alias < self.prop_aliases(num as int).len())
                ==> r is None,
    {
        if num < self.props.len() {
            let d = &self.props[num];
            if alias < d.aliases.len() {
                return Some(copy_plain(&d.aliases[alias]));
            }
        }
        None
    }

    /// One alias of one method, the way the host enumerates names: nothing
    /// when either index is out of range.
    pub fn method_name(&self, num: usize, alias: usize) -> (r: Option<Vec<u16>>)
        ensures
            num < self.methods_seq().len() && alias < self.method_aliases(num as int).len() ==> (
            r matches Some(v) && v@ == self.method_aliases(num as int)[alias as int]),
            !(num < self.methods_seq().len() && alias < self.method_aliases(num as int).len())
                ==> r is None,
    {
        if num < self.methods.len() {
            let d = &self.methods[num];
            if alias < d.aliases.len() {
                return Some(copy_plain(&d.aliases[alias]));
            }
        }
        None
    }

    /// Whether the property at `num` can be read; false out of range.
    pub fn is_property_readable(&self, num: usize) -> (r: bool)
        ensures
            r == (num < self.props_seq().len() && self.props_seq()[num as int].readable),
    {
        num < self.props.len() && self.props[num].readable
    }

    /// Whether the property at `num` can be written; false out of range.
    pub fn is_property_writable(&self, num: usize) -> (r: bool)
        ensures
            r == (num < self.props_seq().len() && self.props_seq()[num as int].writable),
    {
        num < self.props.len() && self.props[num].writable
    }

    /// Reads a property.  Out-of-range ordinals and unreadable properties
    /// are refused without consulting the description; otherwise the
    /// description's answer is returned as it came.
    pub fn read_property(&self, num: usize) -> (r: Result<ParamValue, NativeApiError>)
        ensures
            num >= self.props_seq().len() ==> r == Err::<ParamValue, NativeApiError>(
                NativeApiError::Property(PropertyError::IndexOutOfBounds { index: num }),
            ),
            num < self.props_seq().len() && !self.props_seq()[num as int].readable ==> r == Err::<
                ParamValue,
                NativeApiError,
            >(NativeApiError::Property(PropertyError::NotReadable { index: num })),
    {
        if num >= self.props.len() {
            return Err(NativeApiError::Property(PropertyError::IndexOutOfBounds { index: num }));
        }
        if !self.props[num].readable {
            return Err(NativeApiError::Property(PropertyError::NotReadable { index: num }));
        }
        self.description.read(num)
    }

    /// Writes a property.  Out-of-range ordinals and unwritable properties
    /// are refused without consulting the description and without any state
    /// change; otherwise the description's answer is returned as it came.
    pub fn write_property(&mut self, num: usize, val: &ParamValue) -> (r: Result<
        (),
        NativeApiError,
    >)
        ensures
            final(self).same_tables(old(self)),
            final(self).wf() == old(self).wf(),
            num >= old(self).props_seq().len() ==> r == Err::<(), NativeApiError>(
                NativeApiError::Property(PropertyError::IndexOutOfBounds { index: num }),
            ) && *final(self) == *old(self),
            num < old(self).props_seq().len() && !old(self).props_seq()[num as int].writable ==> r
                == Err::<(), NativeApiError>(
                NativeApiError::Property(PropertyError::NotWritable { index: num }),
            ) && *final(self) == *old(self),
    {
        if num >= self.props.len() {
            return Err(NativeApiError::Property(PropertyError::IndexOutOfBounds { index: num }));
        }
        if !self.props[num].writable {
            return Err(NativeApiError::Property(PropertyError::NotWritable { index: num }));
        }
        self.description.write(num, val)
    }

    /// Number of parameters of the method at `num`; 0 out of range.
    pub fn parameter_count(&self, num: usize) -> (r: usize)
        ensures
            num < self.methods_seq().len() ==> r == self.methods_seq()[num as int].params@.len(),
            num >= self.methods_seq().len() ==> r == 0,
    {
        if num < self.methods.len() {
            self.methods[num].params.len()
        } else {
            0
        }
    }

    /// The declared default of one parameter; nothing when either index is
    /// out of range or the parameter declares none.
    pub fn parameter_default(&self, num: usize, param: usize) -> (r: Option<ParamValue>)
        ensures
            ({
                let in_range = num < self.methods_seq().len() && param < self.methods_seq()[
                    num as int
                ].params@.len();
                &&& (in_range && self.methods_seq()[num as int].params@[param as int].default_value
                    is Some) ==> (r matches Some(v) && v@ == default_of(
                    self.methods_seq()[num as int].params@[param as int],
                ))
                &&& !(in_range && self.methods_seq()[num as int].params@[
                    param as int
                ].default_value is Some) ==> r is None
            }),
    {
        if num < self.methods.len() {
            let m = &self.methods[num];
            if param < m.params.len() {
                return match &m.params[param].default_value {
                    Some(v) => Some(v.duplicate()),
                    None => None,
                };
            }
        }
        None
    }

    /// Whether the method at `num` declares a return value; false out of range.
    pub fn has_return_value(&self, num: usize) -> (r: bool)
        ensures
            r == (num < self.methods_seq().len() && self.methods_seq()[num as int].return_type
                is Some),
    {
        num < self.methods.len() && self.methods[num].return_type.is_some()
    }

    /// Invokes the method at `num`.
    ///
    /// The dispatcher's own refusals are fixed exactly: an out-of-range
    /// ordinal, too many arguments, a missing required argument, and a
    /// function call on a method without a return value, each leaving all
    /// state untouched.  On the success path the description runs over
    /// exactly the argument list `substitute_defaults` fixes — the given
    /// arguments followed by the declared defaults of the omitted trailing
    /// parameters; its outcome is returned as it came, with the value
    /// discarded when `as_procedure` is set.
    pub fn invoke(&mut self, num: usize, args: &ParamValues, as_procedure: bool) -> (r: Result<
        Option<ParamValue>,
        NativeApiError,
    >)
        ensures
            final(self).same_tables(old(self)),
            final(self).wf() == old(self).wf(),
            num >= old(self).methods_seq().len() ==> r == Err::<Option<ParamValue>, NativeApiError>(
                NativeApiError::Method(MethodError::IndexOutOfBounds { index: num }),
            ) && *final(self) == *old(self),
            num < old(self).methods_seq().len() ==> ({
                let m = old(self).methods_seq()[num as int];
                &&& args@.len() > m.params@.len() ==> r == Err::<
                    Option<ParamValue>,
                    NativeApiError,
                >(
                    NativeApiError::Parameter(
                        ParameterError::TooMany {
                            expected: m.params@.len() as usize,
                            actual: args@.len() as usize,
                        },
                    ),
                ) && *final(self) == *old(self)
                &&& (args@.len() <= m.params@.len() && !defaults_available(
                    m.params@,
                    args@.len() as int,
                )) ==> ((r matches Err(e) && e matches NativeApiError::Parameter(
                    ParameterError::MissingRequired { name },
                ) && name@ == Seq::<char>::empty()) && *final(self) == *old(self))
                &&& (args@.len() <= m.params@.len() && defaults_available(
                    m.params@,
                    args@.len() as int,
                ) && !as_procedure && m.return_type is None) ==> (r == Err::<
                    Option<ParamValue>,
                    NativeApiError,
                >(NativeApiError::Method(MethodError::NoReturnValue { index: num })) && *final(self)
                    == *old(self))
            }),
            as_procedure && r is Ok ==> r == Ok::<Option<ParamValue>, NativeApiError>(None),
            !as_procedure && r is Ok ==> r matches Ok(Some(_)),
    {
        if num >= self.methods.len() {
            return Err(NativeApiError::Method(MethodError::IndexOutOfBounds { index: num }));
        }
        let full_args = match substitute_defaults(&self.methods[num], args) {
            Ok(f) => f,
            Err(e) => {
                return Err(e);
            },
        };
        if !as_procedure && self.methods[num].return_type.is_none() {
            return Err(NativeApiError::Method(MethodError::NoReturnValue { index: num }));
        }
        match self.description.invoke(num, &full_args) {
            Ok(v) => {
                if as_procedure {
                    Ok(None)
                } else {
                    Ok(Some(v))
                }
            },
            Err(e) => Err(e),
        }
    }

    /// Whether this value's variable-length payload fits a wire record's
    /// 32-bit length field.
    fn payload_fits(v: &ParamValue) -> (r: bool)
        ensures
            r == (crate::ffi::provided_types::payload_len(v@) <= u32::MAX),
    {
        match v {
            ParamValue::String(s) => s.len() <= u32::MAX as usize,
            ParamValue::AnsiString(b) => b.len() <= u32::MAX as usize,
            ParamValue::Blob(b) => b.len() <= u32::MAX as usize,
            _ => true,
        }
    }

    /// Host-boundary property read: reads the property and encodes the value
    /// into the host-owned slot.  This is where the structured errors
    /// collapse into the host's boolean convention: any refusal, read
    /// failure or allocation failure yields `false` and leaves the slot and
    /// the gateway untouched; a successful call leaves the slot tag/payload
    /// consistent.
    pub fn host_read_property(
        &self,
        mem: &mut MemoryManager,
        num: usize,
        slot: &mut TVariant,
    ) -> (ok: bool)
        requires
            old(mem).wf(),
            variant_wf(*old(slot), *old(mem)),
        ensures
            final(mem).wf(),
            num >= self.props_seq().len() || !self.props_seq()[num as int].readable ==> !ok
                && *final(slot) == *old(slot) && *final(mem) == *old(mem),
            !ok ==> *final(slot) == *old(slot) && *final(mem) == *old(mem),
            ok ==> variant_wf(*final(slot), *final(mem)),
    {
        match self.read_property(num) {
            Ok(v) => {
                if !Self::payload_fits(&v) {
                    return false;
                }
                match slot.update_from_return(mem, &v) {
                    Ok(_) => true,
                    Err(_) => false,
                }
            },
            Err(_) => false,
        }
    }

    /// Host-boundary property write: decodes the host-owned slot and routes
    /// the value to the property, collapsing every structured error into the
    /// host's boolean convention.  A bad ordinal or an unwritable property
    /// leaves all state untouched.
    pub fn host_write_property(&mut self, mem: &MemoryManager, num: usize, slot: &TVariant) -> (ok:
        bool)
        requires
            variant_wf(*slot, *mem),
        ensures
            final(self).same_tables(old(self)),
            num >= old(self).props_seq().len() || !old(self).props_seq()[num as int].writable
                ==> !ok && *final(self) == *old(self),
    {
        let v = decode(slot, mem);
        match self.write_property(num, &v) {
            Ok(_) => true,
            Err(_) => false,
        }
    }

    /// Host-boundary function call: decodes the argument records with
    /// `decode_all` (whose contract fixes the decoded list element for
    /// element), invokes the method over it, and encodes the returned value
    /// into the host-owned result slot, collapsing every structured error
    /// into the host's boolean convention.  Any failure leaves the result
    /// slot and the gateway untouched; a successful call leaves the result
    /// slot tag/payload consistent.
    pub fn host_call_as_func(
        &mut self,
        mem: &mut MemoryManager,
        num: usize,
        arg_slots: &Vec<TVariant>,
        ret_slot: &mut TVariant,
    ) -> (ok: bool)
        requires
            old(mem).wf(),
            variant_wf(*old(ret_slot), *old(mem)),
            forall|i: int|
                0 <= i < arg_slots@.len() ==> variant_wf(#[trigger] arg_slots@[i], *old(mem)),
        ensures
            final(mem).wf(),
            final(self).same_tables(old(self)),
            num >= old(self).methods_seq().len() ==> !ok && *final(self) == *old(self)
                && *final(ret_slot) == *old(ret_slot) && *final(mem) == *old(mem),
            !ok ==> *final(ret_slot) == *old(ret_slot) && *final(mem) == *old(mem),
            ok ==> variant_wf(*final(ret_slot), *final(mem)),
    {
        let args = decode_all(arg_slots, mem);
        match self.invoke(num, &args, false) {
            Ok(Some(v)) => {
                if !Self::payload_fits(&v) {
                    return false;
                }
                match ret_slot.update_from_return(mem, &v) {
                    Ok(_) => true,
                    Err(_) => false,
                }
            },
            Ok(None) => false,
            Err(_) => false,
        }
    }

    /// Host-boundary procedure call: decodes the argument records with
    /// `decode_all` and invokes the method over the decoded list with the
    /// result discarded, collapsing every structured error into the host's
    /// boolean convention.  A bad ordinal leaves all state untouched.
    pub fn host_call_as_proc(
        &mut self,
        mem: &MemoryManager,
        num: usize,
        arg_slots: &Vec<TVariant>,
    ) -> (ok: bool)
        requires
            mem.wf(),
            forall|i: int| 0 <= i < arg_slots@.len() ==> variant_wf(#[trigger] arg_slots@[i], *mem),
        ensures
            final(self).same_tables(old(self)),
            num >= old(self).methods_seq().len() ==> !ok && *final(self) == *old(self),
    {
        let args = decode_all(arg_slots, mem);
        match self.invoke(num, &args, true) {
            Ok(_) => true,
            Err(_) => false,
        }
    }
}

impl<D: Description> AddInWrapper for Dispatcher<D> {
    fn init(&mut self, interface: &'static Connection) -> bool {
        self.connect(interface)
    }

    fn done(&mut self) {
        self.disconnect();
    }

    fn register_extension_as(&mut self) -> &[u16] {
        self.registration_name()
    }

    fn get_n_props(&self) -> usize {
        self.property_count()
    }

    fn find_prop(&self, name: &[u16]) -> Option<usize> {
        self.find_property(name)
    }

    fn get_prop_name(&self, num: usize, alias: usize) -> Option<Vec<u16>> {
        self.property_name(num, alias)
    }

    fn get_prop_val(&self, num: usize) -> Result<ParamValue, NativeApiError> {
        self.read_property(num)
    }

    fn set_prop_val(&mut self, num: usize, val: ParamValue) -> Result<(), NativeApiError> {
        self.write_property(num, &val)
    }

    fn is_prop_readable(&self, num: usize) -> bool {
        self.is_property_readable(num)
    }

    fn is_prop_writable(&self, num: usize) -> bool {
        self.is_property_writable(num)
    }

    fn get_n_methods(&self) -> usize {
        self.method_count()
    }

    fn find_method(&self, name: &[u16]) -> Option<usize> {
        Dispatcher::find_method(self, name)
    }

    fn get_method_name(&self, num: usize, alias: usize) -> Option<Vec<u16>> {
        self.method_name(num, alias)
    }

    fn get_n_params(&self, method_num: usize) -> usize {
        self.parameter_count(method_num)
    }

    fn get_param_def_value(&self, method_num: usize, param_num: usize) -> Option<ParamValue> {
        self.parameter_default(method_num, param_num)
    }

    fn has_ret_val(&self, method_num: usize) -> bool {
        self.has_return_value(method_num)
    }

    fn call_as_proc(&mut self, method_num: usize, params: &mut ParamValues) -> Result<
        (),
        NativeApiError,
    > {
        match self.invoke(method_num, params, true) {
            Ok(_) => Ok(()),
            Err(e) => Err(e),
        }
    }

    fn call_as_func(&mut self, method_num: usize, params: &mut ParamValues) -> Result<
        ParamValue,
        NativeApiError,
    > {
        match self.invoke(method_num, params, false) {
            Ok(Some(v)) => Ok(v),
            Ok(None) => Err(NativeApiError::Method(MethodError::NoReturnValue {
                index: method_num,
            })),
            Err(e) => Err(e),
        }
    }

    fn set_locale(&mut self, _loc: &[u16]) {
    }

    fn set_user_interface_language_code(&mut self, _lang: &[u16]) {
    }
}

} // verus!
