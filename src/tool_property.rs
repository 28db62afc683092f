//! The argument names that the tools of the catalogue declare.
use vstd::prelude::*;

verus! {

#[derive(Debug, Clone, Copy, PartialEq, Eq, Structural)]
pub enum ToolProperty {
    Name,
    Message,
    Id,
    Completed,
}

/// The name under which a property is declared and looked up.
pub open spec fn property_name(p: ToolProperty) -> Seq<char> {
    match p {
        ToolProperty::Name => "name"@,
        ToolProperty::Message => "message"@,
        ToolProperty::Id => "id"@,
        ToolProperty::Completed => "completed"@,
    }
}

impl ToolProperty {
    pub fn name(&self) -> (r: &'static str)
        ensures
            r@ == property_name(*self),
    {
        match self {
            ToolProperty::Name => "name",
            ToolProperty::Message => "message",
            ToolProperty::Id => "id",
            ToolProperty::Completed => "completed",
        }
    }

    pub fn to_string(&self) -> (r: String)
        ensures
            r@ == property_name(*self),
    {
        String::from_str(self.name())
    }
}

} // verus!
