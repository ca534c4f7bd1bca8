use vstd::prelude::*;

verus! {

/// A candidate authentication scheme: its identifier and its scheme-specific
/// configuration.
#[derive(Debug)]
pub struct HttpAuthOption {
    scheme_id: String,
    properties: String,
}

impl View for HttpAuthOption {
    type V = (Seq<char>, Seq<char>);

    closed spec fn view(&self) -> (Seq<char>, Seq<char>) {
        (self.scheme_id@, self.properties@)
    }
}

/// The views of a list of auth options, in order.
pub open spec fn options_view(options: Seq<HttpAuthOption>) -> Seq<(Seq<char>, Seq<char>)> {
    options.map_values(|o: HttpAuthOption| o@)
}

impl HttpAuthOption {
    pub fn new(scheme_id: String, properties: String) -> (r: Self)
        ensures
            r@ == (scheme_id@, properties@),
    {
        HttpAuthOption { scheme_id, properties }
    }

    /// The scheme's identifier.
    pub fn scheme_id(&self) -> (r: &str)
        ensures
            r@ == self@.0,
    {
        self.scheme_id.as_str()
    }

    /// The scheme-specific configuration.
    pub fn properties(&self) -> (r: &str)
        ensures
            r@ == self@.1,
    {
        self.properties.as_str()
    }

    /// A copy of this option.
    pub fn duplicate(&self) -> (r: Self)
        ensures
            r@ == self@,
    {
        HttpAuthOption { scheme_id: self.scheme_id.clone(), properties: self.properties.clone() }
    }
}

/// Empty params to be used with [`AuthOptionListResolver`].
#[derive(Debug)]
pub struct AuthOptionListResolverParams;

impl AuthOptionListResolverParams {
    pub fn new() -> (r: Self) {
        AuthOptionListResolverParams
    }
}

/// Resolves auth options to a fixed list, whatever the params.
#[derive(Debug)]
pub struct AuthOptionListResolver {
    auth_options: Vec<HttpAuthOption>,
}

impl View for AuthOptionListResolver {
    type V = Seq<(Seq<char>, Seq<char>)>;

    closed spec fn view(&self) -> Seq<(Seq<char>, Seq<char>)> {
        options_view(self.auth_options@)
    }
}

impl AuthOptionListResolver {
    /// A resolver that always returns `auth_options`, in this order.
    pub fn new(auth_options: Vec<HttpAuthOption>) -> (r: Self)
        ensures
            r@ == options_view(auth_options@),
    {
        AuthOptionListResolver { auth_options }
    }

    /// The registered options, in registration order; the params are not read.
    pub fn resolve_auth_options(&self, _params: &AuthOptionListResolverParams) -> (r: Result<
        Vec<HttpAuthOption>,
        AuthResolutionError,
    >)
        ensures
            r matches Ok(v) && options_view(v@) == self@,
    {
        let mut out: Vec<HttpAuthOption> = Vec::new();
        let mut i: usize = 0;
        while i < self.auth_options.len()
            invariant
                i <= self.auth_options@.len(),
                out@.len() == i,
                forall|j: int| 0 <= j < i ==> (#[trigger] out@[j])@ == self.auth_options@[j]@,
            decreases self.auth_options@.len() - i,
        {
            out.push(self.auth_options[i].duplicate());
            i = i + 1;
        }
        assert(options_view(out@) =~= options_view(self.auth_options@));
        Ok(out)
    }
}

/// No usable auth scheme could be found for a call.
#[derive(Debug, Clone, Copy, PartialEq, Eq, Structural)]
pub struct AuthResolutionError;

} // verus!
