use vstd::prelude::*;
use vstd::string::*;

verus! {

/// A character allowed in a resource name: a lowercase letter, a digit or a hyphen.
pub open spec fn name_char_ok(c: char) -> bool {
    ('a' <= c && c <= 'z') || ('0' <= c && c <= '9') || c == '-'
}

/// A resource name: non-empty, lowercase alphanumerics and hyphens only.
pub open spec fn is_resource_name(s: Seq<char>) -> bool {
    s.len() > 0 && forall|i: int| 0 <= i < s.len() ==> #[trigger] name_char_ok(s[i])
}

pub fn valid_resource_name(s: &str) -> (r: bool)
    ensures
        r == is_resource_name(s@),
{
    let n = s.unicode_len();
    if n == 0 {
        return false;
    }
    let mut i: usize = 0;
    while i < n
        invariant
            n == s@.len(),
            i <= n,
            forall|j: int| 0 <= j < i ==> #[trigger] name_char_ok(s@[j]),
        decreases n - i,
    {
        let c = s.get_char(i);
        if !(('a' <= c && c <= 'z') || ('0' <= c && c <= '9') || c == '-') {
            assert(!name_char_ok(s@[i as int]));
            return false;
        }
        i = i + 1;
    }
    true
}

/// What a published build asks for: the project, its image tag, and a
/// correlation token that is carried along and never interpreted.
pub struct DeployRequest {
    pub name: String,
    pub tag: String,
    pub build_id: String,
}

#[derive(Debug, Clone, Copy, PartialEq, Eq, Structural)]
pub enum RequestError {
    MissingName,
    MissingTag,
    MissingBuildId,
    InvalidName,
}

impl DeployRequest {
    pub open spec fn wf(&self) -> bool {
        is_resource_name(self.name@)
    }

    /// Builds a request out of the decoded envelope fields, rejecting one
    /// with a field missing or with a name that is no resource name.
    pub fn from_fields(name: Option<String>, tag: Option<String>, build_id: Option<String>) -> (r:
        Result<DeployRequest, RequestError>)
        ensures
            name is None ==> r == Err::<DeployRequest, RequestError>(RequestError::MissingName),
            name is Some && tag is None ==> r == Err::<DeployRequest, RequestError>(
                RequestError::MissingTag,
            ),
            name is Some && tag is Some && build_id is None ==> r == Err::<
                DeployRequest,
                RequestError,
            >(RequestError::MissingBuildId),
            name is Some && tag is Some && build_id is Some && !is_resource_name(name->0@) ==> r
                == Err::<DeployRequest, RequestError>(RequestError::InvalidName),
            r is Ok <==> (name is Some && tag is Some && build_id is Some && is_resource_name(
                name->0@,
            )),
            r matches Ok(q) ==> q.wf() && q.name@ == name->0@ && q.tag@ == tag->0@ && q.build_id@
                == build_id->0@,
    {
        match (name, tag, build_id) {
            (None, _, _) => Err(RequestError::MissingName),
            (Some(_), None, _) => Err(RequestError::MissingTag),
            (Some(_), Some(_), None) => Err(RequestError::MissingBuildId),
            (Some(name), Some(tag), Some(build_id)) => {
                if valid_resource_name(name.as_str()) {
                    Ok(DeployRequest { name, tag, build_id })
                } else {
                    Err(RequestError::InvalidName)
                }
            },
        }
    }
}

} // verus!
