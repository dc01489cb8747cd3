//! Partial values: a possibly missing value together with the errors met while producing it.

use vstd::prelude::*;

use crate::error::{errors_view, Error, ErrorView, Errors};

verus! {

/// A value that may be incomplete, together with the errors found while producing it.
#[derive(Clone, Debug, PartialEq)]
pub struct Partial<T> {
    value: Option<T>,
    errors: Errors,
}

/// The view of a partial value: the view of its value, if any, and the views of its errors.
pub struct PartialV<V> {
    pub value: Option<V>,
    pub errors: Seq<ErrorView>,
}

impl<T: View> View for Partial<T> {
    type V = PartialV<T::V>;

    open spec fn view(&self) -> PartialV<T::V> {
        PartialV {
            value: match self.spec_value() {
                Some(v) => Some(v@),
                None => None,
            },
            errors: errors_view(self.spec_errors()),
        }
    }
}

impl<T> Partial<T> {
    /// The contained value, if any.
    pub closed spec fn spec_value(self) -> Option<T> {
        self.value
    }

    /// The errors, in order.
    pub closed spec fn spec_errors(self) -> Seq<Error> {
        self.errors@
    }

    /// A value is present and no error was recorded.
    pub open spec fn is_complete(self) -> bool {
        self.spec_value() is Some && self.spec_errors().len() == 0
    }

    /// Constructs a new `Partial<T>` with the given initial value.
    pub fn new(value: Option<T>) -> (res: Partial<T>)
        ensures
            res.spec_value() == value,
            res.spec_errors() == Seq::<Error>::empty(),
    {
        Partial { value, errors: Errors::new() }
    }

    /// Constructs a new `Partial<T>` with the given initial value and a stack of errors.
    pub fn with_errors(value: Option<T>, errors: Errors) -> (res: Partial<T>)
        ensures
            res.spec_value() == value,
            res.spec_errors() == errors@,
    {
        Partial { value, errors }
    }

    /// Returns whether this partial value contains errors.
    pub fn has_errors(&self) -> (res: bool)
        ensures
            res == (self.spec_errors().len() > 0),
    {
        !self.errors.is_empty()
    }

    /// Returns the errors associated with the partial value, if any.
    pub fn errors(&self) -> (res: Option<Errors>)
        ensures
            self.spec_errors().len() == 0 ==> res is None,
            self.spec_errors().len() > 0 ==> (res matches Some(e) && e@ == self.spec_errors()),
    {
        if self.has_errors() {
            Some(self.errors.clone())
        } else {
            None
        }
    }

    /// Appends the given errors to the error stack contained in this partial value.
    pub fn extend_errors(&mut self, errors: Errors)
        ensures
            final(self).spec_value() == old(self).spec_value(),
            final(self).spec_errors() == old(self).spec_errors() + errors@,
    {
        self.errors.extend(errors);
    }

    /// Returns the contained partial value, if any.
    pub fn value(&self) -> (res: Option<&T>)
        ensures
            res matches Some(v) ==> self.spec_value() == Some(*v),
            res is None ==> self.spec_value() is None,
    {
        match &self.value {
            Some(v) => Some(v),
            None => None,
        }
    }

    /// Splits the partial value into its value and its errors.
    pub fn into_parts(self) -> (res: (Option<T>, Errors))
        ensures
            res.0 == self.spec_value(),
            res.1@ == self.spec_errors(),
    {
        (self.value, self.errors)
    }

    /// Maps a `Partial<T>` to `Partial<U>` by applying a function to a contained value.
    ///
    /// This transformation is applied regardless of whether this `Partial<T>` contains errors.
    pub fn map<U, F: FnOnce(T) -> U>(self, f: F) -> (res: Partial<U>)
        requires
            self.spec_value() matches Some(v) ==> call_requires(f, (v,)),
        ensures
            map_result(self, f, res),
    {
        let value = match self.value {
            Some(v) => Some(f(v)),
            None => None,
        };
        Partial { value, errors: self.errors }
    }

    /// Calls `f` if there exists a contained value, otherwise returns the stored errors instead.
    ///
    /// Any errors produced by `f` are appended to the errors already inside `self`.
    pub fn flat_map<U, F: FnOnce(T) -> Partial<U>>(self, f: F) -> (res: Partial<U>)
        requires
            self.spec_value() matches Some(v) ==> call_requires(f, (v,)),
        ensures
            flat_map_result(self, f, res),
    {
        let Partial { value, errors } = self;
        match value {
            Some(v) => {
                let ghost gv = v;
                let partial = f(v);
                let ghost p = partial;
                assert(call_ensures(f, (gv,), p));
                let Partial { value: inner_value, errors: inner_errors } = partial;
                let mut errors = errors;
                errors.extend(inner_errors);
                let res = Partial { value: inner_value, errors };
                assert(res.spec_errors() == self.spec_errors() + p.spec_errors());
                assert(call_ensures(f, (gv,), p) && res.spec_value() == p.spec_value()
                    && res.spec_errors() == self.spec_errors() + p.spec_errors());
                res
            },
            None => Partial { value: None, errors },
        }
    }

    /// Applies `f` to the errors, if there are any; a partial value without errors is
    /// returned unchanged.
    pub fn map_err<F: FnOnce(Errors) -> Errors>(self, f: F) -> (res: Partial<T>)
        requires
            self.spec_errors().len() > 0 ==> forall|e: Errors|
                e@ == self.spec_errors() ==> call_requires(f, (e,)),
        ensures
            res.spec_value() == self.spec_value(),
            self.spec_errors().len() == 0 ==> res.spec_errors() == self.spec_errors(),
            self.spec_errors().len() > 0 ==> exists|e: Errors, out: Errors|
                e@ == self.spec_errors() && call_ensures(f, (e,), out) && res.spec_errors()
                    == out@,
    {
        let has = self.has_errors();
        let Partial { value, errors } = self;
        let errors = if has {
            let ghost before = errors;
            let out = f(errors);
            assert(before@ == self.spec_errors() && call_ensures(f, (before,), out));
            out
        } else {
            errors
        };
        Partial { value, errors }
    }

    /// Transforms the `Partial<T>` into a `Result<T, Errors>`, asserting that the contained
    /// value exists and has no errors.
    pub fn verify(self) -> (res: Result<T, Errors>)
        ensures
            self.is_complete() ==> res == Ok::<T, Errors>(self.spec_value()->0),
            !self.is_complete() ==> (res matches Err(e) && e@ == self.spec_errors()),
    {
        let has = self.has_errors();
        match self.value {
            Some(value) => {
                if has {
                    Err(self.errors)
                } else {
                    Ok(value)
                }
            },
            None => Err(self.errors),
        }
    }
}

/// What `map` gives for `p` and `f`: the errors of `p`, and a value of `f` on the value of
/// `p`, if there is one.
pub open spec fn map_result<T, U, F: FnOnce(T) -> U>(p: Partial<T>, f: F, r: Partial<U>) -> bool {
    &&& r.spec_errors() == p.spec_errors()
    &&& match p.spec_value() {
        None => r.spec_value() is None,
        Some(v) => r.spec_value() matches Some(u) && call_ensures(f, (v,), u),
    }
}

/// What `flat_map` gives for `p` and `f`: without a value, the errors of `p`; with one, the
/// value of a result of `f` on it, after the errors of `p` and then those of that result.
pub open spec fn flat_map_result<T, U, F: FnOnce(T) -> Partial<U>>(
    p: Partial<T>,
    f: F,
    r: Partial<U>,
) -> bool {
    match p.spec_value() {
        None => r.spec_value() is None && r.spec_errors() == p.spec_errors(),
        Some(v) => exists|q: Partial<U>|
            call_ensures(f, (v,), q) && r.spec_value() == q.spec_value() && r.spec_errors()
                == p.spec_errors() + q.spec_errors(),
    }
}

/// Mapping with a function that gives back its argument leaves the value and the errors
/// unchanged.
pub proof fn law_map_identity<T, F: FnOnce(T) -> T>(p: Partial<T>, f: F, r: Partial<T>)
    requires
        map_result(p, f, r),
        forall|x: T, y: T| call_ensures(f, (x,), y) ==> y == x,
    ensures
        r.spec_value() == p.spec_value(),
        r.spec_errors() == p.spec_errors(),
{
}

/// Mapping with `f` and then with `g` gives the value and the errors that mapping once with
/// their composition `h` gives.
pub proof fn law_map_composition<T, U, V, F: FnOnce(T) -> U, G: FnOnce(U) -> V, H: FnOnce(T) -> V>(
    p: Partial<T>,
    f: F,
    g: G,
    h: H,
    q: Partial<U>,
    r: Partial<V>,
    s: Partial<V>,
)
    requires
        map_result(p, f, q),
        map_result(q, g, r),
        map_result(p, h, s),
        forall|x: T, y: U, z: V, w: V|
            #![trigger call_ensures(f, (x,), y), call_ensures(g, (y,), z), call_ensures(h, (x,), w)]
            call_ensures(f, (x,), y) && call_ensures(g, (y,), z) && call_ensures(h, (x,), w)
                ==> w == z,
    ensures
        r.spec_value() == s.spec_value(),
        r.spec_errors() == s.spec_errors(),
{
}

/// A complete partial value `x` bound with `f` gives what `f` gives for `x`, when `f` gives
/// one result for `x`.
pub proof fn law_flat_map_left_identity<T, U, F: FnOnce(T) -> Partial<U>>(
    x: T,
    p: Partial<T>,
    f: F,
    q: Partial<U>,
    r: Partial<U>,
)
    requires
        p.spec_value() == Some(x),
        p.spec_errors() == Seq::<Error>::empty(),
        call_ensures(f, (x,), q),
        flat_map_result(p, f, r),
        forall|a: Partial<U>, b: Partial<U>|
            #![trigger call_ensures(f, (x,), a), call_ensures(f, (x,), b)]
            call_ensures(f, (x,), a) && call_ensures(f, (x,), b) ==> a.spec_value()
                == b.spec_value() && a.spec_errors() == b.spec_errors(),
    ensures
        r.spec_value() == q.spec_value(),
        r.spec_errors() == q.spec_errors(),
{
    let a = choose|a: Partial<U>|
        call_ensures(f, (x,), a) && r.spec_value() == a.spec_value() && r.spec_errors()
            == p.spec_errors() + a.spec_errors();
    assert(p.spec_errors() + a.spec_errors() =~= a.spec_errors());
}

/// Binding with a function that wraps its argument as a complete partial value leaves the
/// value and the errors unchanged.
pub proof fn law_flat_map_right_identity<T, F: FnOnce(T) -> Partial<T>>(
    p: Partial<T>,
    f: F,
    r: Partial<T>,
)
    requires
        flat_map_result(p, f, r),
        forall|x: T, q: Partial<T>|
            call_ensures(f, (x,), q) ==> q.spec_value() == Some(x) && q.spec_errors() == Seq::<
                Error,
            >::empty(),
    ensures
        r.spec_value() == p.spec_value(),
        r.spec_errors() == p.spec_errors(),
{
    if let Some(v) = p.spec_value() {
        let q = choose|q: Partial<T>|
            call_ensures(f, (v,), q) && r.spec_value() == q.spec_value() && r.spec_errors()
                == p.spec_errors() + q.spec_errors();
        assert(p.spec_errors() + q.spec_errors() =~= p.spec_errors());
    }
}

/// Binding with `f` and then with `g` gives the value and the errors that binding once with
/// `h` gives, where `h` binds the result of `f` with `g`.
pub proof fn law_flat_map_associative<
    T,
    U,
    V,
    F: FnOnce(T) -> Partial<U>,
    G: FnOnce(U) -> Partial<V>,
    H: FnOnce(T) -> Partial<V>,
>(p: Partial<T>, f: F, g: G, h: H, q: Partial<U>, r: Partial<V>, s: Partial<V>)
    requires
        flat_map_result(p, f, q),
        flat_map_result(q, g, r),
        flat_map_result(p, h, s),
        forall|x: T, a: Partial<U>, w: Partial<V>|
            #![trigger call_ensures(f, (x,), a), call_ensures(h, (x,), w)]
            call_ensures(f, (x,), a) && call_ensures(h, (x,), w) ==> match a.spec_value() {
                None => w.spec_value() is None && w.spec_errors() == a.spec_errors(),
                Some(y) => forall|c: Partial<V>|
                    #![trigger call_ensures(g, (y,), c)]
                    call_ensures(g, (y,), c) ==> w.spec_value() == c.spec_value()
                        && w.spec_errors() == a.spec_errors() + c.spec_errors(),
            },
    ensures
        r.spec_value() == s.spec_value(),
        r.spec_errors() == s.spec_errors(),
{
    if let Some(x) = p.spec_value() {
        let a = choose|a: Partial<U>|
            call_ensures(f, (x,), a) && q.spec_value() == a.spec_value() && q.spec_errors()
                == p.spec_errors() + a.spec_errors();
        let w = choose|w: Partial<V>|
            call_ensures(h, (x,), w) && s.spec_value() == w.spec_value() && s.spec_errors()
                == p.spec_errors() + w.spec_errors();
        if let Some(y) = a.spec_value() {
            let c = choose|c: Partial<V>|
                call_ensures(g, (y,), c) && r.spec_value() == c.spec_value() && r.spec_errors()
                    == q.spec_errors() + c.spec_errors();
            assert(call_ensures(g, (y,), c));
            assert(p.spec_errors() + a.spec_errors() + c.spec_errors() =~= p.spec_errors() + (
            a.spec_errors() + c.spec_errors()));
        }
    }
}

impl<T> From<T> for Partial<T> {
    /// A complete partial value: `value`, with no error.
    fn from(value: T) -> (res: Partial<T>)
        ensures
            res.spec_value() == Some(value),
            res.spec_errors() == Seq::<Error>::empty(),
    {
        Partial::new(Some(value))
    }
}

impl<T> From<Option<T>> for Partial<T> {
    /// The partial value that holds `value`, if any, with no error.
    fn from(value: Option<T>) -> (res: Partial<T>)
        ensures
            res.spec_value() == value,
            res.spec_errors() == Seq::<Error>::empty(),
    {
        Partial::new(value)
    }
}

impl<T> vstd::std_specs::convert::FromSpecImpl<Option<T>> for Partial<T> {
    open spec fn obeys_from_spec() -> bool {
        false
    }

    open spec fn from_spec(v: Option<T>) -> Partial<T> {
        arbitrary()
    }
}

impl<T> vstd::std_specs::convert::FromSpecImpl<T> for Partial<T> {
    open spec fn obeys_from_spec() -> bool {
        false
    }

    open spec fn from_spec(v: T) -> Partial<T> {
        arbitrary()
    }
}

/// The values present among `parts`, in order.
pub open spec fn present_values<T>(parts: Seq<Partial<T>>) -> Seq<T>
    decreases parts.len(),
{
    if parts.len() == 0 {
        Seq::empty()
    } else {
        let init = present_values(parts.drop_last());
        match parts.last().spec_value() {
            Some(v) => init.push(v),
            None => init,
        }
    }
}

/// The errors of all `parts`, concatenated in order.
pub open spec fn all_errors<T>(parts: Seq<Partial<T>>) -> Seq<Error>
    decreases parts.len(),
{
    if parts.len() == 0 {
        Seq::empty()
    } else {
        all_errors(parts.drop_last()) + parts.last().spec_errors()
    }
}

impl<T> Partial<Vec<T>> {
    /// Collects partial values into a partial vector: the vector holds every value that is
    /// present, in order, and the errors of all of them are kept, in order.
    pub fn from_partials(parts: Vec<Partial<T>>) -> (res: Partial<Vec<T>>)
        ensures
            res.spec_value() matches Some(v) && v@ == present_values(parts@),
            res.spec_errors() == all_errors(parts@),
    {
        let mut values: Vec<T> = Vec::new();
        let mut errors = Errors::new();
        let mut parts = parts;
        let ghost all = parts@;
        let mut rest: Vec<Partial<T>> = Vec::new();
        // Take the parts from the back, then consume them in order.
        while parts.len() > 0
            invariant
                all == parts@ + rest@.reverse(),
            decreases parts.len(),
        {
            let p = parts.pop().unwrap();
            proof {
                assert(all =~= parts@ + rest@.push(p).reverse());
            }
            rest.push(p);
        }
        assert(all =~= rest@.reverse());
        let ghost n = rest@.len();
        while rest.len() > 0
            invariant
                n == all.len(),
                rest@.len() <= n,
                all == all.take(n - rest@.len()) + rest@.reverse(),
                values@ == present_values(all.take(n - rest@.len())),
                errors@ == all_errors(all.take(n - rest@.len())),
            decreases rest.len(),
        {
            let ghost k = n - rest@.len();
            let p = rest.pop().unwrap();
            proof {
                assert(all[k] == p) by {
                    assert(all == all.take(k) + old_rest_rev(rest@, p));
                }
                assert(all.take(k + 1).drop_last() =~= all.take(k));
                assert(all.take(k + 1).last() == p);
            }
            let Partial { value, errors: errs } = p;
            errors.extend(errs);
            if let Some(v) = value {
                values.push(v);
            }
            proof {
                assert(all =~= all.take(k + 1) + rest@.reverse());
            }
        }
        assert(all.take(n as int) =~= all);
        Partial { value: Some(values), errors }
    }
}

impl<T> Partial<Vec<T>> {
    /// Extends a partial vector from partial values: the errors of every part are appended,
    /// in order, and where this partial vector holds a value, every value that is present
    /// among the parts is pushed onto it, in order.
    pub fn extend_partials(&mut self, parts: Vec<Partial<T>>)
        ensures
            final(self).spec_errors() == old(self).spec_errors() + all_errors(parts@),
            old(self).spec_value() is None ==> final(self).spec_value() is None,
            old(self).spec_value() matches Some(v) ==> (final(self).spec_value() matches Some(w)
                && w@ == v@ + present_values(parts@)),
    {
        let collected = Partial::from_partials(parts);
        let Partial { value: found, errors: found_errors } = collected;
        let mut value: Option<Vec<T>> = None;
        std::mem::swap(&mut value, &mut self.value);
        let merged = match value {
            Some(mut values) => {
                match found {
                    Some(mut more) => {
                        values.append(&mut more);
                    },
                    None => {},
                }
                Some(values)
            },
            None => None,
        };
        self.value = merged;
        self.errors.extend(found_errors);
    }
}

spec fn old_rest_rev<T>(rest: Seq<T>, p: T) -> Seq<T> {
    rest.push(p).reverse()
}

} // verus!
