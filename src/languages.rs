//! The languages a solution can be written in.

use vstd::prelude::*;

verus! {

#[derive(Debug, Clone, Copy, PartialEq, Eq, Hash, Structural)]
pub enum Languages {
    C,
    Cpp,
    CSharp,
    Go,
    Java,
    JavaScript,
    Python,
    Rust,
    ShellScript,
}

/// Every language, in the order offered to the user.
pub open spec fn all_languages() -> Seq<Languages> {
    seq![
        Languages::C,
        Languages::Cpp,
        Languages::CSharp,
        Languages::Go,
        Languages::Java,
        Languages::JavaScript,
        Languages::Python,
        Languages::Rust,
        Languages::ShellScript,
    ]
}

impl Languages {
    /// The label shown to users and sent in form uploads.
    pub open spec fn label(self) -> Seq<char> {
        match self {
            Languages::C => "C"@,
            Languages::Cpp => "C++"@,
            Languages::CSharp => "C#"@,
            Languages::Go => "Go"@,
            Languages::Java => "Java"@,
            Languages::JavaScript => "JavaScript"@,
            Languages::Python => "Python"@,
            Languages::Rust => "Rust"@,
            Languages::ShellScript => "Bash"@,
        }
    }

    /// The variant's name, which is how the language is written in JSON bodies.
    pub open spec fn wire_label(self) -> Seq<char> {
        match self {
            Languages::C => "C"@,
            Languages::Cpp => "Cpp"@,
            Languages::CSharp => "CSharp"@,
            Languages::Go => "Go"@,
            Languages::Java => "Java"@,
            Languages::JavaScript => "JavaScript"@,
            Languages::Python => "Python"@,
            Languages::Rust => "Rust"@,
            Languages::ShellScript => "ShellScript"@,
        }
    }

    pub fn iter() -> (r: Vec<Languages>)
        ensures
            r@ == all_languages(),
    {
        let r = vec![
            Languages::C,
            Languages::Cpp,
            Languages::CSharp,
            Languages::Go,
            Languages::Java,
            Languages::JavaScript,
            Languages::Python,
            Languages::Rust,
            Languages::ShellScript,
        ];
        assert(r@ =~= all_languages());
        r
    }

    pub fn to_string(&self) -> (r: String)
        ensures
            r@ == self.label(),
    {
        let s = match self {
            Languages::C => "C",
            Languages::Cpp => "C++",
            Languages::CSharp => "C#",
            Languages::Go => "Go",
            Languages::Java => "Java",
            Languages::JavaScript => "JavaScript",
            Languages::Python => "Python",
            Languages::Rust => "Rust",
            Languages::ShellScript => "Bash",
        };
        s.to_owned()
    }

    pub fn wire_name(&self) -> (r: String)
        ensures
            r@ == self.wire_label(),
    {
        let s = match self {
            Languages::C => "C",
            Languages::Cpp => "Cpp",
            Languages::CSharp => "CSharp",
            Languages::Go => "Go",
            Languages::Java => "Java",
            Languages::JavaScript => "JavaScript",
            Languages::Python => "Python",
            Languages::Rust => "Rust",
            Languages::ShellScript => "ShellScript",
        };
        s.to_owned()
    }
}

impl Default for Languages {
    fn default() -> (r: Languages)
        ensures
            r == Languages::C,
    {
        Languages::C
    }
}

} // verus!
