//! Tool descriptors in the function-calling schema, and the builder that makes them.
use vstd::prelude::*;
use crate::message::{
    inserted, lemma_inserted_lookup, lemma_inserted_unique, lemma_lookup_absent, lemma_lookup_first,
    lemma_position_absent, lemma_position_of, lookup, unique_keys,
};

verus! {

/// The type of a declared argument.
#[derive(Debug, Clone, Copy, PartialEq, Eq, Structural)]
pub enum PropertyType {
    String,
    Boolean,
}

pub open spec fn property_type_name(t: PropertyType) -> Seq<char> {
    match t {
        PropertyType::String => "string"@,
        PropertyType::Boolean => "boolean"@,
    }
}

impl PropertyType {
    /// The wire name of the type.
    pub fn name(&self) -> (r: &'static str)
        ensures
            r@ == property_type_name(*self),
    {
        match self {
            PropertyType::String => "string",
            PropertyType::Boolean => "boolean",
        }
    }
}

/// A declared argument: its type and what it means.
#[derive(Debug, PartialEq, Eq)]
pub struct Property {
    pub property_type: PropertyType,
    pub description: String,
}

/// What a property declares: its type and its description.
pub open spec fn property_view(p: Property) -> (PropertyType, Seq<char>) {
    (p.property_type, p.description@)
}

impl Property {
    pub fn new_string(description: &str) -> (r: Property)
        ensures
            r.property_type == PropertyType::String,
            r.description@ == description@,
    {
        Property { property_type: PropertyType::String, description: String::from_str(description) }
    }

    pub fn new_bool(description: &str) -> (r: Property)
        ensures
            r.property_type == PropertyType::Boolean,
            r.description@ == description@,
    {
        Property {
            property_type: PropertyType::Boolean,
            description: String::from_str(description),
        }
    }
}

/// Declared arguments by name, in the order in which they were first added.
#[derive(Debug, PartialEq, Eq)]
pub struct Properties {
    entries: Vec<(String, Property)>,
}

impl View for Properties {
    type V = Seq<(Seq<char>, (PropertyType, Seq<char>))>;

    closed spec fn view(&self) -> Seq<(Seq<char>, (PropertyType, Seq<char>))> {
        self.entries@.map_values(|e: (String, Property)| (e.0@, property_view(e.1)))
    }
}

impl Properties {
    pub fn new() -> (r: Properties)
        ensures
            r@ == Seq::<(Seq<char>, (PropertyType, Seq<char>))>::empty(),
            unique_keys(r@),
    {
        let r = Properties { entries: Vec::new() };
        assert(r@ =~= Seq::<(Seq<char>, (PropertyType, Seq<char>))>::empty());
        r
    }

    pub fn len(&self) -> (r: usize)
        ensures
            r == self@.len(),
    {
        self.entries.len()
    }

    fn position(&self, key: &str) -> (r: Option<usize>)
        ensures
            match r {
                Some(i) => i < self@.len() && self@[i as int].0 == key@ && forall|j: int|
                    0 <= j < i ==> self@[j].0 != key@,
                None => forall|j: int| 0 <= j < self@.len() ==> self@[j].0 != key@,
            },
    {
        let k = String::from_str(key);
        let mut i: usize = 0;
        while i < self.entries.len()
            invariant
                i <= self.entries@.len(),
                k@ == key@,
                forall|j: int| 0 <= j < i ==> self@[j].0 != key@,
            decreases self.entries@.len() - i,
        {
            if self.entries[i].0 == k {
                return Some(i);
            }
            i = i + 1;
        }
        None
    }

    /// The declaration of `key`.
    pub fn get(&self, key: &str) -> (r: Option<&Property>)
        ensures
            match r {
                Some(p) => lookup(self@, key@) == Some(property_view(*p)),
                None => lookup(self@, key@) == None::<(PropertyType, Seq<char>)>,
            },
    {
        match self.position(key) {
            Some(i) => {
                proof {
                    lemma_lookup_first(self@, key@, i as int);
                }
                Some(&self.entries[i].1)
            },
            None => {
                proof {
                    lemma_lookup_absent(self@, key@);
                }
                None
            },
        }
    }

    /// Declares `key`: a name declared before keeps its place and takes the
    /// new declaration, a new name goes last.
    pub fn insert(&mut self, key: String, value: Property)
        ensures
            final(self)@ == inserted(old(self)@, key@, property_view(value)),
            unique_keys(old(self)@) ==> unique_keys(final(self)@),
            forall|k: Seq<char>|
                lookup(#[trigger] final(self)@, k) == if k == key@ {
                    Some(property_view(value))
                } else {
                    lookup(old(self)@, k)
                },
    {
        let ghost before = self@;
        let ghost kv = key@;
        let ghost pv = property_view(value);
        match self.position(key.as_str()) {
            Some(i) => {
                self.entries.set(i, (key, value));
                proof {
                    assert(self@ =~= before.update(i as int, (kv, pv)));
                    lemma_position_of(before, kv, i as int);
                }
            },
            None => {
                self.entries.push((key, value));
                proof {
                    assert(self@ =~= before.push((kv, pv)));
                    lemma_position_absent(before, kv);
                }
            },
        }
        proof {
            assert forall|k: Seq<char>|
                lookup(#[trigger] self@, k) == if k == kv {
                    Some(pv)
                } else {
                    lookup(before, k)
                } by {
                lemma_inserted_lookup(before, kv, pv, k);
            }
            if unique_keys(before) {
                lemma_inserted_unique(before, kv, pv);
            }
        }
    }

    /// Declarations taken as they are, in the given order.
    pub(crate) fn from_entries(entries: Vec<(String, Property)>) -> (r: Properties)
        ensures
            r@ == entries@.map_values(|e: (String, Property)| (e.0@, property_view(e.1))),
    {
        Properties { entries }
    }

    /// The entries in their order.
    pub fn entries(&self) -> (r: &Vec<(String, Property)>)
        ensures
            r@.map_values(|e: (String, Property)| (e.0@, property_view(e.1))) == self@,
    {
        &self.entries
    }
}

/// The required list after adding a name: a name already there is not added again.
pub open spec fn with_required(required: Seq<Seq<char>>, name: Seq<char>) -> Seq<Seq<char>> {
    if required.contains(name) {
        required
    } else {
        required.push(name)
    }
}

/// The names of a list of strings.
pub open spec fn names(v: Vec<String>) -> Seq<Seq<char>> {
    v@.map_values(|s: String| s@)
}

fn contains_name(v: &Vec<String>, key: &String) -> (r: bool)
    ensures
        r == names(*v).contains(key@),
{
    let mut i: usize = 0;
    while i < v.len()
        invariant
            i <= v@.len(),
            forall|j: int| 0 <= j < i ==> v@[j]@ != key@,
        decreases v@.len() - i,
    {
        if v[i] == *key {
            proof {
                assert(names(*v)[i as int] == key@);
            }
            return true;
        }
        i = i + 1;
    }
    proof {
        if names(*v).contains(key@) {
            let j = choose|j: int| 0 <= j < names(*v).len() && names(*v)[j] == key@;
            assert(v@[j]@ == key@);
        }
    }
    false
}

/// The schema of a tool's arguments.
#[derive(Debug, PartialEq, Eq)]
pub struct Parameter {
    pub parameter_type: String,
    pub properties: Properties,
    pub required: Vec<String>,
}

/// A callable function: its name, what it does, and its arguments.
#[derive(Debug, PartialEq, Eq)]
pub struct Function {
    pub name: String,
    pub description: String,
    pub parameters: Parameter,
}

/// A tool as the model is told of it.
#[derive(Debug, PartialEq, Eq)]
pub struct Tool {
    pub tool_type: String,
    pub function: Function,
}

/// Why a tool could not be built.
#[derive(Debug, Clone, Copy, PartialEq, Eq, Structural)]
pub enum BuildError {
    MissingName,
    MissingDescription,
}

impl Tool {
    pub fn new() -> (r: ToolBuilder)
        ensures
            r.function_name is None,
            r.function_description is None,
            r.properties@.len() == 0,
            r.required_properties@.len() == 0,
    {
        ToolBuilder::new()
    }
}

/// Collects the parts of a tool.
#[derive(Debug)]
pub struct ToolBuilder {
    pub function_name: Option<String>,
    pub function_description: Option<String>,
    pub properties: Properties,
    pub required_properties: Vec<String>,
}

impl ToolBuilder {
    pub fn new() -> (r: ToolBuilder)
        ensures
            r.function_name is None,
            r.function_description is None,
            r.properties@.len() == 0,
            r.required_properties@.len() == 0,
    {
        ToolBuilder {
            function_name: None,
            function_description: None,
            properties: Properties::new(),
            required_properties: Vec::new(),
        }
    }

    pub fn function_name(self, name: &str) -> (r: ToolBuilder)
        ensures
            r.function_name is Some && r.function_name.unwrap()@ == name@,
            r.function_description == self.function_description,
            r.properties == self.properties,
            r.required_properties == self.required_properties,
    {
        ToolBuilder { function_name: Some(String::from_str(name)), ..self }
    }

    pub fn function_description(self, description: &str) -> (r: ToolBuilder)
        ensures
            r.function_description is Some && r.function_description.unwrap()@ == description@,
            r.function_name == self.function_name,
            r.properties == self.properties,
            r.required_properties == self.required_properties,
    {
        ToolBuilder { function_description: Some(String::from_str(description)), ..self }
    }

    /// Declares an argument, or replaces the declaration of one declared before.
    pub fn add_function_property(self, name: &str, property: Property) -> (r: ToolBuilder)
        ensures
            r.properties@ == inserted(self.properties@, name@, property_view(property)),
            r.function_name == self.function_name,
            r.function_description == self.function_description,
            r.required_properties == self.required_properties,
    {
        let mut b = self;
        b.properties.insert(String::from_str(name), property);
        b
    }

    /// Marks an argument as required; a name marked before is not repeated.
    pub fn add_required_property(self, name: &str) -> (r: ToolBuilder)
        ensures
            names(r.required_properties) == with_required(names(self.required_properties), name@),
            r.function_name == self.function_name,
            r.function_description == self.function_description,
            r.properties == self.properties,
    {
        let key = String::from_str(name);
        if contains_name(&self.required_properties, &key) {
            self
        } else {
            let mut b = self;
            let ghost before = names(b.required_properties);
            b.required_properties.push(key);
            proof {
                assert(names(b.required_properties) =~= before.push(name@));
            }
            b
        }
    }

    /// The tool, once it has a name and a description.
    pub fn build(self) -> (r: Result<Tool, BuildError>)
        ensures
            self.function_name is None ==> r == Err::<Tool, BuildError>(BuildError::MissingName),
            self.function_name is Some && self.function_description is None ==> r == Err::<
                Tool,
                BuildError,
            >(BuildError::MissingDescription),
            self.function_name is Some && self.function_description is Some ==> r is Ok && ({
                let t = r.unwrap();
                &&& t.tool_type@ == "function"@
                &&& t.function.name == self.function_name.unwrap()
                &&& t.function.description == self.function_description.unwrap()
                &&& t.function.parameters.parameter_type@ == "object"@
                &&& t.function.parameters.properties == self.properties
                &&& t.function.parameters.required == self.required_properties
            }),
    {
        match self.function_name {
            None => Err(BuildError::MissingName),
            Some(name) => match self.function_description {
                None => Err(BuildError::MissingDescription),
                Some(description) => Ok(
                    Tool {
                        tool_type: String::from_str("function"),
                        function: Function {
                            name,
                            description,
                            parameters: Parameter {
                                parameter_type: String::from_str("object"),
                                properties: self.properties,
                                required: self.required_properties,
                            },
                        },
                    },
                ),
            },
        }
    }
}

} // verus!
