//! The engine API versions this host supports.

use vstd::prelude::*;

verus! {

/// API number of the oldest supported engine line.
pub const API_PHP82: u32 = 20220829;

/// API number of the middle supported engine line.
pub const API_PHP83: u32 = 20230831;

/// API number of the newest supported engine line.
pub const API_PHP84: u32 = 20240924;

/// A supported engine API line.
#[derive(Clone, Copy, Debug, PartialEq, Eq, Structural)]
pub enum ApiVersion {
    Php82,
    Php83,
    Php84,
}

impl ApiVersion {
    /// The numeric API version of this line.
    pub open spec fn spec_api_number(self) -> u32 {
        match self {
            ApiVersion::Php82 => API_PHP82,
            ApiVersion::Php83 => API_PHP83,
            ApiVersion::Php84 => API_PHP84,
        }
    }

    /// Returns the numeric API version of this line.
    pub fn api_number(self) -> (r: u32)
        ensures
            r == self.spec_api_number(),
    {
        match self {
            ApiVersion::Php82 => API_PHP82,
            ApiVersion::Php83 => API_PHP83,
            ApiVersion::Php84 => API_PHP84,
        }
    }

    /// Returns the minimum supported API version.
    pub fn min() -> (r: Self)
        ensures
            r == ApiVersion::Php82,
            forall|v: ApiVersion| r.spec_api_number() <= #[trigger] v.spec_api_number(),
    {
        ApiVersion::Php82
    }

    /// Returns the maximum supported API version.
    pub fn max() -> (r: Self)
        ensures
            r == ApiVersion::Php84,
            forall|v: ApiVersion| #[trigger] v.spec_api_number() <= r.spec_api_number(),
    {
        ApiVersion::Php84
    }

    /// All supported versions, oldest first.
    pub open spec fn spec_versions() -> Seq<ApiVersion> {
        seq![ApiVersion::Php82, ApiVersion::Php83, ApiVersion::Php84]
    }

    /// Returns all supported versions, oldest first.
    pub fn versions() -> (r: Vec<ApiVersion>)
        ensures
            r@ == Self::spec_versions(),
    {
        let mut v: Vec<ApiVersion> = Vec::new();
        v.push(ApiVersion::Php82);
        v.push(ApiVersion::Php83);
        v.push(ApiVersion::Php84);
        proof {
            assert(v@ =~= Self::spec_versions());
        }
        v
    }

    /// Returns the versions this one can serve: every supported version up
    /// to and including itself, oldest first.
    pub fn supported_apis(self) -> (r: Vec<ApiVersion>)
        ensures
            r@ == Self::spec_versions().filter(
                |v: ApiVersion| v.spec_api_number() <= self.spec_api_number(),
            ),
    {
        let all = Self::versions();
        let mut r: Vec<ApiVersion> = Vec::new();
        let ghost f = |v: ApiVersion| v.spec_api_number() <= self.spec_api_number();
        let n = all.len();
        let mut i: usize = 0;
        proof {
            assert(r@ =~= Self::spec_versions().take(0).filter(f));
        }
        while i < n
            invariant
                n == all@.len(),
                i <= n,
                all@ == Self::spec_versions(),
                f == (|v: ApiVersion| v.spec_api_number() <= self.spec_api_number()),
                r@ == Self::spec_versions().take(i as int).filter(f),
            decreases n - i,
        {
            let v = all[i];
            proof {
                assert(Self::spec_versions().take(i + 1).drop_last() =~= Self::spec_versions().take(
                    i as int,
                ));
                assert(Self::spec_versions().take(i + 1).last() == v);
                reveal_with_fuel(Seq::filter, 2);
            }
            if v.api_number() <= self.api_number() {
                r.push(v);
            }
            i += 1;
        }
        proof {
            assert(Self::spec_versions().take(n as int) =~= Self::spec_versions());
        }
        r
    }

    /// The configuration name of this line.
    pub fn cfg_name(self) -> (r: &'static str)
        ensures
            (match self {
                ApiVersion::Php82 => r@ == "php82"@,
                ApiVersion::Php83 => r@ == "php83"@,
                ApiVersion::Php84 => r@ == "php84"@,
            }),
    {
        match self {
            ApiVersion::Php82 => "php82",
            ApiVersion::Php83 => "php83",
            ApiVersion::Php84 => "php84",
        }
    }

    /// Classifies a reported API number: each line answers for every number
    /// from its own release up to the next line's, and numbers outside the
    /// supported span are refused.
    pub fn try_from(version: u32) -> (r: Option<ApiVersion>)
        ensures
            (match r {
                Option::Some(v) => (v == ApiVersion::Php82 <==> API_PHP82 <= version < API_PHP83)
                    && (v == ApiVersion::Php83 <==> API_PHP83 <= version < API_PHP84) && (v
                    == ApiVersion::Php84 <==> version == API_PHP84),
                Option::None => true,
            }),
            r is None <==> version < API_PHP82 || version > API_PHP84,
    {
        if API_PHP82 <= version && version < API_PHP83 {
            Some(ApiVersion::Php82)
        } else if API_PHP83 <= version && version < API_PHP84 {
            Some(ApiVersion::Php83)
        } else if version == API_PHP84 {
            Some(ApiVersion::Php84)
        } else {
            None
        }
    }
}

} // verus!
