use vstd::prelude::*;

verus! {

/// One AWS CLI profile's key pair, as read from the credentials file.
pub struct AWSCLICredentials {
    pub aws_access_key_id: String,
    pub aws_secret_access_key: String,
}

/// The mathematical shape of an [`AWSCLICredentials`].
pub struct AWSCLICredentialsView {
    pub aws_access_key_id: Seq<char>,
    pub aws_secret_access_key: Seq<char>,
}

impl View for AWSCLICredentials {
    type V = AWSCLICredentialsView;

    open spec fn view(&self) -> AWSCLICredentialsView {
        AWSCLICredentialsView {
            aws_access_key_id: self.aws_access_key_id@,
            aws_secret_access_key: self.aws_secret_access_key@,
        }
    }
}

impl DeepView for AWSCLICredentials {
    type V = AWSCLICredentialsView;

    open spec fn deep_view(&self) -> AWSCLICredentialsView {
        self.view()
    }
}

/// A parsed credentials file: the profile the CLI uses when none is
/// named.
pub struct AWSCLICredentialsFile {
    pub default: AWSCLICredentials,
}

/// What parsing INI text into sections yields: each section's name with
/// its key-value pairs, sections and keys alike in ascending name order; a
/// function of the text alone, `None` when the text is not INI of that
/// shape.
pub uninterp spec fn parsed_ini_sections(s: Seq<char>) -> Option<
    Seq<(Seq<char>, Seq<(Seq<char>, Seq<char>)>)>,
>;

/// Relies on serde_ini: `from_str` deserializes INI text into a map of
/// sections, each a map of keys to values. Read through ordered maps, the
/// sections and their pairs come out sorted by name, so the result is a
/// function of the text alone.
#[verifier::external_body]
fn parse_ini_sections(s: &str) -> (r: Option<Vec<(String, Vec<(String, String)>)>>)
    ensures
        r matches Some(v) ==> parsed_ini_sections(s@) == Some(v.deep_view()),
        r is None ==> parsed_ini_sections(s@) is None,
{
    let m: std::collections::BTreeMap<String, std::collections::BTreeMap<String, String>> =
        serde_ini::from_str(s).ok()?;
    Some(m.into_iter().map(|(k, v)| (k, v.into_iter().collect())).collect())
}

/// The value bound to a key among a section's pairs; the first binding
/// wins.
pub open spec fn spec_lookup<V>(pairs: Seq<(Seq<char>, V)>, key: Seq<char>) -> Option<V>
    decreases pairs.len(),
{
    if pairs.len() == 0 {
        None
    } else if pairs[0].0 == key {
        Some(pairs[0].1)
    } else {
        spec_lookup(pairs.drop_first(), key)
    }
}

/// Find the value bound to `key`, exactly as [`spec_lookup`] says.
pub fn section_value(pairs: &Vec<(String, String)>, key: &str) -> (r: Option<String>)
    ensures
        r matches Some(v) ==> spec_lookup(pairs.deep_view(), key@) == Some(v@),
        r is None ==> spec_lookup(pairs.deep_view(), key@) is None,
{
    let k: String = key.to_owned();
    let ghost all = pairs.deep_view();
    proof {
        assert(all.skip(0) =~= all);
    }
    let mut i: usize = 0;
    while i < pairs.len()
        invariant
            0 <= i <= pairs@.len(),
            all == pairs.deep_view(),
            all.len() == pairs@.len(),
            k@ == key@,
            spec_lookup(all, key@) == spec_lookup(all.skip(i as int), key@),
        decreases pairs@.len() - i,
    {
        proof {
            assert(all.skip(i as int)[0] == all[i as int]);
            assert(all.skip(i as int).drop_first() =~= all.skip(i as int + 1));
        }
        if pairs[i].0 == k {
            return Some(pairs[i].1.clone());
        }
        i += 1;
    }
    proof {
        assert(all.skip(pairs@.len() as int) =~= Seq::<(Seq<char>, Seq<char>)>::empty());
    }
    None
}

/// The credentials a profile section holds, when it binds both keys.
pub fn credentials_of_section(pairs: &Vec<(String, String)>) -> (r: Option<AWSCLICredentials>)
    ensures
        r matches Some(c) ==> (spec_lookup(pairs.deep_view(), "aws_access_key_id"@) == Some(
            c.aws_access_key_id@,
        ) && spec_lookup(pairs.deep_view(), "aws_secret_access_key"@) == Some(
            c.aws_secret_access_key@,
        )),
        r is None ==> (spec_lookup(pairs.deep_view(), "aws_access_key_id"@) is None || spec_lookup(
            pairs.deep_view(),
            "aws_secret_access_key"@,
        ) is None),
{
    let access = section_value(pairs, "aws_access_key_id");
    let secret = section_value(pairs, "aws_secret_access_key");
    match (access, secret) {
        (Some(a), Some(s)) => Some(
            AWSCLICredentials { aws_access_key_id: a, aws_secret_access_key: s },
        ),
        _ => None,
    }
}

/// The profiles a parsed credentials file holds, each section reduced to
/// its key pair; nothing when any section lacks one of the two keys, since
/// such a file does not deserialize as credentials at all.
pub open spec fn spec_profiles_of(sections: Seq<(Seq<char>, Seq<(Seq<char>, Seq<char>)>)>) -> Option<
    Seq<(Seq<char>, AWSCLICredentialsView)>,
>
    decreases sections.len(),
{
    if sections.len() == 0 {
        Some(Seq::empty())
    } else {
        let access = spec_lookup(sections[0].1, "aws_access_key_id"@);
        let secret = spec_lookup(sections[0].1, "aws_secret_access_key"@);
        if access is Some && secret is Some {
            match spec_profiles_of(sections.drop_first()) {
                Some(rest) => Some(
                    seq![
                        (
                            sections[0].0,
                            AWSCLICredentialsView {
                                aws_access_key_id: access->0,
                                aws_secret_access_key: secret->0,
                            },
                        ),
                    ] + rest,
                ),
                None => None,
            }
        } else {
            None
        }
    }
}

/// The AWS CLI profiles found in credentials-file text: each profile's
/// name with its key pair, exactly as [`spec_profiles_of`] says of the
/// parsed sections; nothing when the text does not parse as credentials.
pub fn parse_aws_credentials(text: &str) -> (r: Option<Vec<(String, AWSCLICredentials)>>)
    ensures
        parsed_ini_sections(text@) is None ==> r is None,
        parsed_ini_sections(text@) matches Some(secs) ==> (spec_profiles_of(secs) is None ==> r
            is None),
        parsed_ini_sections(text@) matches Some(secs) ==> (spec_profiles_of(secs) matches Some(ps)
            ==> (r matches Some(v) && v.deep_view() == ps)),
{
    let sections = match parse_ini_sections(text) {
        Some(s) => s,
        None => {
            return None;
        },
    };
    let ghost secs = sections.deep_view();
    let mut out: Vec<(String, AWSCLICredentials)> = Vec::new();
    proof {
        assert(secs.skip(0) =~= secs);
        match spec_profiles_of(secs) {
            Some(ps) => {
                assert(out.deep_view() + ps =~= ps);
            },
            None => {},
        }
    }
    let mut i: usize = 0;
    while i < sections.len()
        invariant
            0 <= i <= sections@.len(),
            secs == sections.deep_view(),
            secs.len() == sections@.len(),
            parsed_ini_sections(text@) == Some(secs),
            spec_profiles_of(secs) == match spec_profiles_of(secs.skip(i as int)) {
                Some(rest) => Some(out.deep_view() + rest),
                None => None::<Seq<(Seq<char>, AWSCLICredentialsView)>>,
            },
        decreases sections@.len() - i,
    {
        proof {
            assert(secs.skip(i as int)[0] == secs[i as int]);
            assert(secs.skip(i as int).drop_first() =~= secs.skip(i as int + 1));
        }
        let creds = match credentials_of_section(&sections[i].1) {
            Some(c) => c,
            None => {
                proof {
                    assert(secs[i as int].1 == sections@[i as int].1.deep_view());
                    assert(spec_profiles_of(secs.skip(i as int)) is None);
                }
                return None;
            },
        };
        let name = sections[i].0.clone();
        proof {
            let head = (secs[i as int].0, creds@);
            match spec_profiles_of(secs.skip(i as int + 1)) {
                Some(rest) => {
                    assert(out.deep_view() + (seq![head] + rest) =~= out.deep_view().push(head)
                        + rest);
                },
                None => {},
            }
        }
        out.push((name, creds));
        i += 1;
    }
    proof {
        assert(secs.skip(sections@.len() as int) =~= Seq::<
            (Seq<char>, Seq<(Seq<char>, Seq<char>)>),
        >::empty());
        assert(out.deep_view() + Seq::<(Seq<char>, AWSCLICredentialsView)>::empty()
            =~= out.deep_view());
    }
    Some(out)
}

/// The profile of the given name, when the parsed file has one.
pub fn profile_named(profiles: &Vec<(String, AWSCLICredentials)>, name: &str) -> (r: Option<
    AWSCLICredentials,
>)
    ensures
        r matches Some(c) ==> spec_lookup(profiles.deep_view(), name@) == Some(c@),
        r is None ==> spec_lookup(profiles.deep_view(), name@) is None,
{
    let n: String = name.to_owned();
    let ghost all = profiles.deep_view();
    proof {
        assert(all.skip(0) =~= all);
    }
    let mut i: usize = 0;
    while i < profiles.len()
        invariant
            0 <= i <= profiles@.len(),
            all == profiles.deep_view(),
            all.len() == profiles@.len(),
            n@ == name@,
            spec_lookup(all, name@) == spec_lookup(all.skip(i as int), name@),
        decreases profiles@.len() - i,
    {
        proof {
            assert(all.skip(i as int)[0] == all[i as int]);
            assert(all.skip(i as int).drop_first() =~= all.skip(i as int + 1));
        }
        if profiles[i].0 == n {
            let c = &profiles[i].1;
            return Some(
                AWSCLICredentials {
                    aws_access_key_id: c.aws_access_key_id.clone(),
                    aws_secret_access_key: c.aws_secret_access_key.clone(),
                },
            );
        }
        i += 1;
    }
    proof {
        assert(all.skip(profiles@.len() as int) =~= Seq::<
            (Seq<char>, AWSCLICredentialsView),
        >::empty());
    }
    None
}

} // verus!
