//! Kinds of projects that the Modrinth package index distributes.
use vstd::prelude::*;

verus! {

#[derive(Clone, Copy, Debug, PartialEq, Eq, Structural)]
pub enum ProjectType {
    Mod,
    ModPack,
    DataPack,
    ResourcePack,
    Shader,
}

impl ProjectType {
    pub open spec fn spec_name(self) -> Seq<char> {
        match self {
            ProjectType::Mod => "Mod"@,
            ProjectType::ModPack => "ModPack"@,
            ProjectType::DataPack => "DataPack"@,
            ProjectType::ResourcePack => "ResourcePack"@,
            ProjectType::Shader => "Shader"@,
        }
    }

    /// The variant's name, as the kind is shown.
    pub fn to_string(&self) -> (r: String)
        ensures
            r@ == self.spec_name(),
    {
        match self {
            ProjectType::Mod => String::from_str("Mod"),
            ProjectType::ModPack => String::from_str("ModPack"),
            ProjectType::DataPack => String::from_str("DataPack"),
            ProjectType::ResourcePack => String::from_str("ResourcePack"),
            ProjectType::Shader => String::from_str("Shader"),
        }
    }
}

} // verus!
