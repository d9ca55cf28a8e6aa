use vstd::prelude::*;

verus! {

} // verus!
