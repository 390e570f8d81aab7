//! The two repositories of the Uptane trust model.

use crate::text::str_eq;
use vstd::prelude::*;
use vstd::std_specs::convert::FromSpecImpl;
use vstd::string::*;

verus! {

/// Which repository a document belongs to.
#[derive(Debug, Clone, Copy, PartialEq, Eq, Structural)]
pub enum Type {
    Unknown,
    Image,
    Director,
}

/// A repository of the trust model: the image repository, the director
/// repository, or none of them.
#[derive(Debug, Clone, Copy, PartialEq, Eq, Structural)]
pub struct RepositoryType {
    type_: Type,
}

/// The number under which a repository is stored: 0 for the image repository,
/// 1 for the director repository, -1 for an unknown one.
pub open spec fn repo_code(t: Type) -> int {
    match t {
        Type::Image => 0,
        Type::Director => 1,
        Type::Unknown => -1,
    }
}

/// The repository that a stored number stands for. Every number but 0 and 1
/// stands for the unknown repository.
pub open spec fn repo_of_code(code: int) -> Type {
    if code == 0 {
        Type::Image
    } else if code == 1 {
        Type::Director
    } else {
        Type::Unknown
    }
}

/// The name of a repository; the unknown repository has the empty name.
pub open spec fn repo_name(t: Type) -> Seq<char> {
    match t {
        Type::Image => "Image"@,
        Type::Director => "Director"@,
        Type::Unknown => Seq::<char>::empty(),
    }
}

/// What `RepositoryType::from_str` returns for a name.
pub open spec fn repo_of_name(name: Seq<char>) -> Result<Type, Seq<char>> {
    if name == "Director"@ {
        Ok(Type::Director)
    } else if name == "Image"@ {
        Ok(Type::Image)
    } else {
        Err("Incorrect repo type: "@ + name)
    }
}

impl RepositoryType {
    pub const IMAGE: &'static str = "Image";

    pub const DIRECTOR: &'static str = "Director";

    /// Which repository this is.
    pub closed spec fn kind(self) -> Type {
        self.type_
    }

    /// The unknown repository.
    pub fn new() -> (r: RepositoryType)
        ensures
            r.kind() == Type::Unknown,
    {
        RepositoryType { type_: Type::Unknown }
    }

    /// The image repository.
    pub fn image() -> (r: RepositoryType)
        ensures
            r.kind() == Type::Image,
    {
        RepositoryType { type_: Type::Image }
    }

    /// The director repository.
    pub fn director() -> (r: RepositoryType)
        ensures
            r.kind() == Type::Director,
    {
        RepositoryType { type_: Type::Director }
    }

    /// The repository stored under `type_val`.
    pub fn from_int(type_val: i32) -> (r: RepositoryType)
        ensures
            r.kind() == repo_of_code(type_val as int),
    {
        let type_ = if type_val == 0 {
            Type::Image
        } else if type_val == 1 {
            Type::Director
        } else {
            Type::Unknown
        };
        RepositoryType { type_ }
    }

    /// The repository named `repo_type`, which is `Image` or `Director`
    /// exactly; any other name is refused with a message that quotes it.
    pub fn from_str(repo_type: &str) -> (res: Result<RepositoryType, String>)
        ensures
            match repo_of_name(repo_type@) {
                Ok(t) => res matches Ok(r) && r.kind() == t,
                Err(message) => res matches Err(e) && e@ == message,
            },
    {
        if str_eq(repo_type, Self::DIRECTOR) {
            Ok(RepositoryType { type_: Type::Director })
        } else if str_eq(repo_type, Self::IMAGE) {
            Ok(RepositoryType { type_: Type::Image })
        } else {
            let mut message = String::from_str("Incorrect repo type: ");
            message.append(repo_type);
            Err(message)
        }
    }

    /// The name of the repository.
    pub fn to_string(&self) -> (name: String)
        ensures
            name@ == repo_name(self.kind()),
    {
        match self.type_ {
            Type::Director => String::from_str(Self::DIRECTOR),
            Type::Image => String::from_str(Self::IMAGE),
            Type::Unknown => String::new(),
        }
    }

    /// The number under which the repository is stored.
    pub fn to_int(&self) -> (code: i32)
        ensures
            code == repo_code(self.kind()),
    {
        match self.type_ {
            Type::Image => 0,
            Type::Director => 1,
            Type::Unknown => -1,
        }
    }
}

impl From<RepositoryType> for String {
    /// The name of the repository.
    fn from(repo_type: RepositoryType) -> (name: String)
        ensures
            name@ == repo_name(repo_type.kind()),
    {
        repo_type.to_string()
    }
}

/// What the conversion gives is stated on `from` itself, over the text of the
/// result: two strings with the same text need not be the same value, so no
/// one value can be named here as the result.
impl FromSpecImpl<RepositoryType> for String {
    open spec fn obeys_from_spec() -> bool {
        false
    }

    open spec fn from_spec(repo_type: RepositoryType) -> String {
        choose|name: String| name@ == repo_name(repo_type.kind())
    }
}

impl From<RepositoryType> for i32 {
    /// The number under which the repository is stored.
    fn from(repo_type: RepositoryType) -> (code: i32) {
        repo_type.to_int()
    }
}

impl FromSpecImpl<RepositoryType> for i32 {
    open spec fn obeys_from_spec() -> bool {
        true
    }

    open spec fn from_spec(repo_type: RepositoryType) -> i32 {
        match repo_type.kind() {
            Type::Image => 0i32,
            Type::Director => 1i32,
            Type::Unknown => -1i32,
        }
    }
}

/// The stored number of a repository names it again, and so does the name of
/// the image and of the director repository.
pub proof fn lemma_repository_round_trip(t: Type)
    ensures
        repo_of_code(repo_code(t)) == t,
        t != Type::Unknown ==> repo_of_name(repo_name(t)) == Ok::<Type, Seq<char>>(t),
{
    reveal_strlit("Image");
    reveal_strlit("Director");
    if t == Type::Image {
        assert("Image"@ != "Director"@) by {
            assert("Image"@.len() != "Director"@.len());
        }
    }
}

} // verus!
