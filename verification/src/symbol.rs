//! Names as a contract sees them: short symbols and account addresses.

use vstd::prelude::*;
use crate::text::{bytes_equal, copy_range};

verus! {

/// Greatest length of a symbol.
pub const SYMBOL_MAX_LEN: usize = 32;

/// The byte is a letter, a digit or an underscore.
pub open spec fn is_symbol_byte(byte: u8) -> bool {
    ||| 0x61 <= byte <= 0x7a
    ||| 0x41 <= byte <= 0x5a
    ||| 0x30 <= byte <= 0x39
    ||| byte == 0x5f
}

/// The text can be a symbol: at most 32 bytes, each a letter, a digit or an
/// underscore.
pub open spec fn is_symbol_text(text: Seq<u8>) -> bool {
    &&& text.len() <= SYMBOL_MAX_LEN
    &&& forall|i: int| 0 <= i < text.len() ==> is_symbol_byte(#[trigger] text[i])
}

/// A short name, such as the identifier of a coin or of a chain.
pub struct Symbol {
    text: Vec<u8>,
}

impl View for Symbol {
    type V = Seq<u8>;

    closed spec fn view(&self) -> Seq<u8> {
        self.text@
    }
}

impl Symbol {
    #[verifier::type_invariant]
    spec fn valid(&self) -> bool {
        is_symbol_text(self.text@)
    }

    /// The symbol with the given text, if the text can be one.
    pub fn new(text: &[u8]) -> (symbol: Option<Symbol>)
        ensures
            symbol is Some <==> is_symbol_text(text@),
            symbol matches Some(s) ==> s@ == text@,
    {
        if text.len() > SYMBOL_MAX_LEN {
            return None;
        }
        let mut i: usize = 0;
        while i < text.len()
            invariant
                i <= text.len(),
                forall|k: int| 0 <= k < i ==> is_symbol_byte(#[trigger] text@[k]),
            decreases text.len() - i,
        {
            let byte = text[i];
            let ok = (0x61 <= byte && byte <= 0x7a) || (0x41 <= byte && byte <= 0x5a) || (0x30
                <= byte && byte <= 0x39) || byte == 0x5f;
            if !ok {
                assert(!is_symbol_byte(text@[i as int]));
                return None;
            }
            i += 1;
        }
        let copy = copy_range(text, 0, text.len());
        assert(copy@ =~= text@);
        Some(Symbol { text: copy })
    }

    /// Every symbol is a valid symbol text.
    pub fn as_bytes(&self) -> (text: &[u8])
        ensures
            text@ == self@,
            is_symbol_text(self@),
    {
        proof {
            use_type_invariant(self);
        }
        self.text.as_slice()
    }

    /// A copy of the symbol.
    pub fn duplicate(&self) -> (copy: Symbol)
        ensures
            copy@ == self@,
    {
        proof {
            use_type_invariant(self);
        }
        let text = copy_range(self.text.as_slice(), 0, self.text.len());
        assert(text@ =~= self.text@);
        Symbol { text }
    }

    /// Tells whether two symbols are the same.
    pub fn same(&self, other: &Symbol) -> (same: bool)
        ensures
            same == (self@ == other@),
    {
        bytes_equal(self.text.as_slice(), other.text.as_slice())
    }
}

/// The address of an account or of a contract, by its text.
pub struct Address {
    text: Vec<u8>,
}

impl View for Address {
    type V = Seq<u8>;

    closed spec fn view(&self) -> Seq<u8> {
        self.text@
    }
}

impl Address {
    /// The address with the given text.
    pub fn new(text: &[u8]) -> (address: Address)
        ensures
            address@ == text@,
    {
        let copy = copy_range(text, 0, text.len());
        assert(copy@ =~= text@);
        Address { text: copy }
    }

    /// The address that a symbol stands for.
    pub fn from_symbol(symbol: &Symbol) -> (address: Address)
        ensures
            address@ == symbol@,
    {
        Address::new(symbol.as_bytes())
    }

    /// The text of the address.
    pub fn as_bytes(&self) -> (text: &[u8])
        ensures
            text@ == self@,
    {
        self.text.as_slice()
    }

    /// A copy of the address.
    pub fn duplicate(&self) -> (copy: Address)
        ensures
            copy@ == self@,
    {
        Address::new(self.text.as_slice())
    }

    /// Tells whether two addresses are the same.
    pub fn same(&self, other: &Address) -> (same: bool)
        ensures
            same == (self@ == other@),
    {
        bytes_equal(self.text.as_slice(), other.text.as_slice())
    }
}

} // verus!
