use vstd::prelude::*;

verus! {

/// A variable-length argument list received from script code, already
/// checked to hold one single element type throughout.
pub struct TypedLuaVariadicArguments<T> {
    args: Vec<T>,
}

/// Whether every element of a conversion sequence succeeded.
pub open spec fn all_converted<T, E>(items: Seq<Result<T, E>>) -> bool {
    forall|i: int| 0 <= i < items.len() ==> items[i] is Ok
}

impl<T> TypedLuaVariadicArguments<T> {
    /// The marshalled arguments, in declaration order.
    pub closed spec fn view(&self) -> Seq<T> {
        self.args@
    }

    pub fn get_va_args(&self) -> (r: &Vec<T>)
        ensures
            r@ == self@,
    {
        &self.args
    }

    /// Marshals a sequence of per-element conversion outcomes into one
    /// homogeneous argument list. The whole call aborts with the first
    /// element whose conversion failed, yielding no partial result, and a
    /// successful call keeps every argument in its original position.
    pub fn from_converted<E>(items: Vec<Result<T, E>>) -> (r: Result<Self, E>)
        ensures
            r is Ok <==> all_converted(items@),
            r matches Ok(a) ==> a@.len() == items@.len() && (forall|i: int|
                0 <= i < items@.len() ==> items@[i] == Ok::<T, E>(a@[i])),
            r matches Err(e) ==> exists|i: int|
                0 <= i < items@.len() && items@[i] == Err::<T, E>(e) && (forall|j: int|
                    0 <= j < i ==> items@[j] is Ok),
    {
        let ghost original = items@;
        let mut rest = items;
        let mut args: Vec<T> = Vec::new();
        while rest.len() > 0
            invariant
                original == items@,
                args@.len() + rest@.len() == original.len(),
                rest@ == original.skip(args@.len() as int),
                forall|i: int| 0 <= i < args@.len() ==> original[i] == Ok::<T, E>(args@[i]),
            decreases rest@.len(),
        {
            let next = rest.remove(0);
            match next {
                Ok(v) => {
                    args.push(v);
                }
                Err(e) => {
                    proof {
                        let k = args@.len() as int;
                        assert(original.skip(k)[0] == original[k]);
                        assert(items@[k] == Err::<T, E>(e));
                        assert(forall|j: int| 0 <= j < k ==> items@[j] is Ok);
                        assert(!(items@[k] is Ok));
                        assert(!all_converted(items@));
                    }
                    return Err(e);
                }
            }
        }
        proof {
            assert(rest@ =~= Seq::<Result<T, E>>::empty());
            assert(forall|i: int| 0 <= i < items@.len() ==> items@[i] == Ok::<T, E>(args@[i]));
        }
        Ok(TypedLuaVariadicArguments { args })
    }
}

} // verus!
