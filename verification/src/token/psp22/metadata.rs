use vstd::prelude::*;

verus! {

/// The view of an optional string.
pub open spec fn opt_view(s: Option<String>) -> Option<Seq<char>> {
    match s {
        Some(t) => Some(t@),
        None => None,
    }
}

/// A copy of an optional string.
fn clone_opt(s: &Option<String>) -> (r: Option<String>)
    ensures
        opt_view(r) == opt_view(*s),
{
    match s {
        Some(t) => Some(t.clone()),
        None => None,
    }
}

/// The storage of the metadata extension: the token's name, symbol and
/// decimals.
pub struct PSP22MetadataData {
    pub name: Option<String>,
    pub symbol: Option<String>,
    pub decimals: u8,
}

impl PSP22MetadataData {
    /// Metadata with the given name, symbol and decimals.
    pub fn new(name: Option<String>, symbol: Option<String>, decimals: u8) -> (d: Self)
        ensures
            opt_view(d.name) == opt_view(name),
            opt_view(d.symbol) == opt_view(symbol),
            d.decimals == decimals,
    {
        let mut instance = PSP22MetadataData { name: None, symbol: None, decimals: 0 };
        if name.is_some() {
            instance.name = name;
        }
        if symbol.is_some() {
            instance.symbol = symbol;
        }
        instance.decimals = decimals;
        instance
    }

    /// Returns the token name.
    pub fn token_name(&self) -> (r: Option<String>)
        ensures
            opt_view(r) == opt_view(self.name),
    {
        clone_opt(&self.name)
    }

    /// Returns the token symbol.
    pub fn token_symbol(&self) -> (r: Option<String>)
        ensures
            opt_view(r) == opt_view(self.symbol),
    {
        clone_opt(&self.symbol)
    }

    /// Returns the token decimals.
    pub fn token_decimals(&self) -> (r: u8)
        ensures
            r == self.decimals,
    {
        self.decimals
    }
}

} // verus!
