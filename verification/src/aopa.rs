//! The property address model: the (selector, scope, element) triple that
//! keys every access to the property store.
//!
//! An address is a plain value, built ad hoc for each access. The element is
//! the sub-index within the scope, typically a channel number; element 0
//! names the whole-device master element. `set_element` accepts any value,
//! mirroring the permissive underlying API: probing a non-existent element is
//! how channel discovery works.

use crate::mscope::PropertyScope;
use crate::mselector::PropertySelector;
use vstd::prelude::*;

verus! {

/// The native descriptor layout: the three fields of an address as the OS
/// expects them, numeric codes in field order.
#[derive(Debug, Clone, Copy, PartialEq, Eq, Structural, PartialOrd, Ord, Hash)]
pub struct NativePropAddress {
    pub m_selector: u32,
    pub m_scope: u32,
    pub m_element: u32,
}

/// A property address: which attribute, on which signal path, at which
/// sub-index.
#[derive(Debug, Clone, Copy, PartialEq, Eq, Structural, PartialOrd, Ord, Hash)]
pub struct AudioObjPropAddress {
    pub select: PropertySelector,
    pub scope: PropertyScope,
    pub element: u32,
}

impl AudioObjPropAddress {
    /// An address for the master element (element 0).
    pub fn new(select: PropertySelector, scope: PropertyScope) -> (r: Self)
        ensures
            r.select_spec() == select,
            r.scope_spec() == scope,
            r.element_spec() == 0u32,
    {
        Self::new_with_element(select, scope, 0)
    }

    pub fn new_with_element(select: PropertySelector, scope: PropertyScope, element: u32) -> (r:
        Self)
        ensures
            r.select_spec() == select,
            r.scope_spec() == scope,
            r.element_spec() == element,
    {
        Self { select, scope, element }
    }

    pub open spec fn select_spec(self) -> PropertySelector {
        self.select
    }

    pub open spec fn scope_spec(self) -> PropertyScope {
        self.scope
    }

    pub open spec fn element_spec(self) -> u32 {
        self.element
    }

    pub fn selector(&self) -> (r: PropertySelector)
        ensures
            r == self.select_spec(),
    {
        self.select
    }

    pub fn scope(&self) -> (r: PropertyScope)
        ensures
            r == self.scope_spec(),
    {
        self.scope
    }

    pub fn element(&self) -> (r: u32)
        ensures
            r == self.element_spec(),
    {
        self.element
    }

    /// Rewrite the element in place, leaving selector and scope untouched.
    /// Any value is accepted, including elements beyond the device's real
    /// channel count.
    pub fn set_element(&mut self, new: u32)
        ensures
            final(self).select_spec() == old(self).select_spec(),
            final(self).scope_spec() == old(self).scope_spec(),
            final(self).element_spec() == new,
    {
        self.element = new;
    }

    /// The native descriptor this address converts to.
    pub open spec fn to_native_spec(self) -> NativePropAddress {
        NativePropAddress {
            m_selector: self.select.code_spec(),
            m_scope: self.scope.code_spec(),
            m_element: self.element,
        }
    }

    /// Convert to the native descriptor: the selector code, the scope code
    /// and the element, in the field order the OS expects.
    pub fn to_native(&self) -> (r: NativePropAddress)
        ensures
            r == self.to_native_spec(),
    {
        NativePropAddress {
            m_selector: self.select.code(),
            m_scope: self.scope.code(),
            m_element: self.element,
        }
    }

    /// The address a native descriptor decodes to, if its selector and scope
    /// codes are both recognized.
    pub open spec fn from_native_spec(native: NativePropAddress) -> Option<AudioObjPropAddress> {
        match (
            PropertySelector::from_code_spec(native.m_selector),
            PropertyScope::from_code_spec(native.m_scope),
        ) {
            (Some(select), Some(scope)) => Some(
                AudioObjPropAddress { select, scope, element: native.m_element },
            ),
            _ => None,
        }
    }

    /// Decode a native descriptor back into an address; `None` when either
    /// code is not part of the closed taxonomy.
    pub fn from_native(native: NativePropAddress) -> (r: Option<AudioObjPropAddress>)
        ensures
            r == Self::from_native_spec(native),
    {
        match (
            PropertySelector::from_code(native.m_selector),
            PropertyScope::from_code(native.m_scope),
        ) {
            (Some(select), Some(scope)) => Some(
                AudioObjPropAddress { select, scope, element: native.m_element },
            ),
            _ => None,
        }
    }
}

/// For every (selector, scope, element) triple, the address built from the
/// parts converts to the native descriptor holding exactly those three field
/// values as codes, and that descriptor decodes back to the same address:
/// the conversion round-trips the triple exactly.
pub proof fn lemma_address_native_round_trip(
    select: PropertySelector,
    scope: PropertyScope,
    element: u32,
)
    ensures
        ({
            let addr = AudioObjPropAddress { select, scope, element };
            &&& addr.to_native_spec() == (NativePropAddress {
                m_selector: select.code_spec(),
                m_scope: scope.code_spec(),
                m_element: element,
            })
            &&& AudioObjPropAddress::from_native_spec(addr.to_native_spec()) == Some(addr)
        }),
{
    let addr = AudioObjPropAddress { select, scope, element };
    crate::mselector::lemma_selector_code_round_trip(select);
    crate::mscope::lemma_scope_code_round_trip(scope);
}

} // verus!
