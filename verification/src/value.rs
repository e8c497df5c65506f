use vstd::prelude::*;
use vstd::string::StringExecFns;

verus! {

/// How many nested dynamic-value wrappers extraction is willing to open.
/// The cap guards against adversarially deep nesting.
pub const MAX_UNWRAP_DEPTH: usize = 16;

/// A decoded notification payload: either a boolean, a dynamic-value wrapper
/// around another payload, or something this monitor does not handle,
/// carried as its description.
#[derive(Debug)]
pub enum DynValue {
    Bool(bool),
    Wrapped(Box<DynValue>),
    Other(String),
}

impl DynValue {
    /// How many wrappers stand around the innermost payload.
    pub open spec fn depth(self) -> nat
        decreases self,
    {
        match self {
            DynValue::Wrapped(inner) => 1 + inner.depth(),
            _ => 0,
        }
    }

    /// The innermost payload, with every wrapper opened.
    pub open spec fn unwrapped(self) -> DynValue
        decreases self,
    {
        match self {
            DynValue::Wrapped(inner) => inner.unwrapped(),
            _ => self,
        }
    }

    /// What extraction yields: the innermost boolean, provided the nesting
    /// stays within the unwrap budget; nothing otherwise.
    pub open spec fn spec_extract(self) -> Option<bool> {
        if self.depth() <= MAX_UNWRAP_DEPTH {
            match self.unwrapped() {
                DynValue::Bool(b) => Some(b),
                _ => None,
            }
        } else {
            None
        }
    }

    /// The diagnostic attached to a payload that extraction rejects.
    pub open spec fn spec_failure_description(self) -> Seq<char> {
        if self.depth() > MAX_UNWRAP_DEPTH {
            "nested value exceeds the unwrap depth budget"@
        } else {
            match self.unwrapped() {
                DynValue::Other(desc) => "could not extract a boolean from value: "@ + desc@,
                _ => "could not extract a boolean from value"@,
            }
        }
    }

    /// Extract the innermost boolean, opening at most [`MAX_UNWRAP_DEPTH`]
    /// wrappers.
    pub fn extract_bool(&self) -> (r: Option<bool>)
        ensures
            r == self.spec_extract(),
    {
        let mut cur: &DynValue = self;
        let mut steps: usize = 0;
        loop
            invariant
                steps <= MAX_UNWRAP_DEPTH,
                cur.unwrapped() == self.unwrapped(),
                self.depth() == steps + cur.depth(),
            decreases cur.depth(),
        {
            match cur {
                DynValue::Bool(b) => {
                    return Some(*b);
                },
                DynValue::Wrapped(inner) => {
                    if steps == MAX_UNWRAP_DEPTH {
                        return None;
                    }
                    steps = steps + 1;
                    cur = &**inner;
                },
                DynValue::Other(_) => {
                    return None;
                },
            }
        }
    }

    /// Describe why extraction rejected this payload.
    pub fn failure_description(&self) -> (d: String)
        ensures
            d@ == self.spec_failure_description(),
    {
        let mut cur: &DynValue = self;
        let mut steps: usize = 0;
        loop
            invariant
                steps <= MAX_UNWRAP_DEPTH,
                cur.unwrapped() == self.unwrapped(),
                self.depth() == steps + cur.depth(),
            decreases cur.depth(),
        {
            match cur {
                DynValue::Bool(_) => {
                    return String::from_str("could not extract a boolean from value");
                },
                DynValue::Wrapped(inner) => {
                    if steps == MAX_UNWRAP_DEPTH {
                        return String::from_str("nested value exceeds the unwrap depth budget");
                    }
                    steps = steps + 1;
                    cur = &**inner;
                },
                DynValue::Other(desc) => {
                    return String::from_str("could not extract a boolean from value: ").concat(
                        desc.as_str(),
                    );
                },
            }
        }
    }
}

/// A payload nested any number of wrappers deep around a boolean — within
/// the unwrap budget — extracts to exactly that boolean.
pub proof fn lemma_extract_nested_bool(v: DynValue, b: bool)
    requires
        v.depth() <= MAX_UNWRAP_DEPTH,
        v.unwrapped() == DynValue::Bool(b),
    ensures
        v.spec_extract() == Some(b),
{
}

/// A payload that never bottoms out in a boolean extracts to nothing,
/// however deep or shallow its nesting.
pub proof fn lemma_extract_never_bool(v: DynValue)
    requires
        !(v.unwrapped() is Bool),
    ensures
        v.spec_extract() is None,
{
}

} // verus!
