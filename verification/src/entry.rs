//! A request for one image, the rules that admit it, and the list of every
//! request that the rules admit.
use crate::arch::WindowsArchitecture;
use crate::consumer::{ConsumerLanguage, ConsumerRelease};
use crate::enterprise::{EnterpriseLanguage, EnterpriseRelease};
use crate::error::RidoError;
use crate::windows::{WindowsLanguage, WindowsRelease};
use vstd::prelude::*;

verus! {

/// A request for one image: a release, an architecture and a language.
#[derive(Debug, Clone, Copy, PartialEq, Eq, Structural)]
pub struct WindowsEntry {
    pub release: WindowsRelease,
    pub arch: WindowsArchitecture,
    pub lang: WindowsLanguage,
}

/// A resolved request: the request, the link to its image and, where the
/// vendor's reply held one, the SHA-256 hash of the image.
#[derive(Debug, Clone, PartialEq, Eq)]
pub struct WindowsData {
    pub info: WindowsEntry,
    pub url: String,
    pub hash: Option<String>,
}

impl WindowsEntry {
    /// What the rules say of the request. The family is judged first, then
    /// the architecture, then the language, and the first rule that the
    /// request breaks names the error.
    pub open spec fn check(self) -> Result<(), RidoError> {
        if !self.lang.same_family(self.release) {
            Err(RidoError::InvalidSelection)
        } else if !self.release.has_build(self.arch) {
            Err(RidoError::InvalidArchitecture(self.release, self.arch))
        } else if !self.lang.available_for(self.release) {
            Err(RidoError::InvalidLanguage(self.release, self.lang))
        } else {
            Ok(())
        }
    }

    /// The request breaks no rule.
    pub open spec fn is_valid(self) -> bool {
        &&& self.lang.same_family(self.release)
        &&& self.release.has_build(self.arch)
        &&& self.lang.available_for(self.release)
    }

    /// The request that three texts name. The release is read first, the
    /// language as one of the release's family, the architecture last, and
    /// the first text that names nothing gives the error.
    pub open spec fn parse_text(release: Seq<char>, lang: Seq<char>, arch: Seq<char>) -> Result<
        Self,
        RidoError,
    > {
        match WindowsRelease::parse_text(release) {
            None => Err(RidoError::InvalidReleaseStr),
            Some(r) => match WindowsLanguage::parse_text(r, lang) {
                None => Err(RidoError::InvalidLanguageStr),
                Some(l) => match WindowsArchitecture::parse_text(arch) {
                    None => Err(RidoError::InvalidArchitectureStr),
                    Some(a) => Ok(WindowsEntry { release: r, arch: a, lang: l }),
                },
            },
        }
    }

    /// Judges the request by the rules, before anything is sent.
    pub fn validate(&self) -> (r: Result<(), RidoError>)
        ensures
            r == self.check(),
            r is Ok <==> self.is_valid(),
    {
        let same = match (self.lang, self.release) {
            (WindowsLanguage::Consumer(_), WindowsRelease::Consumer(_)) => true,
            (WindowsLanguage::Enterprise(_), WindowsRelease::Enterprise(_)) => true,
            _ => false,
        };
        if !same {
            Err(RidoError::InvalidSelection)
        } else if !self.release.validate(self.arch) {
            Err(RidoError::InvalidArchitecture(self.release, self.arch))
        } else if !self.lang.validate(self.release) {
            Err(RidoError::InvalidLanguage(self.release, self.lang))
        } else {
            Ok(())
        }
    }

    /// Reads a request from the texts of its three parts.
    pub fn parse(release: &str, lang: &str, arch: &str) -> (r: Result<Self, RidoError>)
        ensures
            r == Self::parse_text(release@, lang@, arch@),
    {
        let release = match WindowsRelease::try_from(release) {
            Ok(release) => release,
            Err(_) => {
                return Err(RidoError::InvalidReleaseStr);
            },
        };
        let lang = match WindowsLanguage::try_from((release, lang)) {
            Ok(lang) => lang,
            Err(_) => {
                return Err(RidoError::InvalidLanguageStr);
            },
        };
        let arch = match WindowsArchitecture::try_from(arch) {
            Ok(arch) => arch,
            Err(_) => {
                return Err(RidoError::InvalidArchitectureStr);
            },
        };
        Ok(WindowsEntry { release, arch, lang })
    }
}

/// The requests for one release and one language that the release has an
/// image for, one for each such architecture of `archs`, in their order.
pub open spec fn arch_entries(
    release: WindowsRelease,
    lang: WindowsLanguage,
    archs: Seq<WindowsArchitecture>,
) -> Seq<WindowsEntry>
    decreases archs.len(),
{
    if archs.len() == 0 {
        Seq::empty()
    } else {
        arch_entries(release, lang, archs.drop_last()) + if release.has_build(archs.last()) {
            seq![WindowsEntry { release, arch: archs.last(), lang }]
        } else {
            Seq::empty()
        }
    }
}

/// The requests for one release in the languages of `langs` that are offered
/// for it, in their order.
pub open spec fn language_entries(
    release: WindowsRelease,
    langs: Seq<WindowsLanguage>,
    archs: Seq<WindowsArchitecture>,
) -> Seq<WindowsEntry>
    decreases langs.len(),
{
    if langs.len() == 0 {
        Seq::empty()
    } else {
        language_entries(release, langs.drop_last(), archs) + if langs.last().available_for(
            release,
        ) {
            arch_entries(release, langs.last(), archs)
        } else {
            Seq::empty()
        }
    }
}

/// The requests for the releases of `releases`, in their order.
pub open spec fn release_entries(
    releases: Seq<WindowsRelease>,
    langs: Seq<WindowsLanguage>,
    archs: Seq<WindowsArchitecture>,
) -> Seq<WindowsEntry>
    decreases releases.len(),
{
    if releases.len() == 0 {
        Seq::empty()
    } else {
        release_entries(releases.drop_last(), langs, archs) + language_entries(
            releases.last(),
            langs,
            archs,
        )
    }
}

/// The consumer releases that the list walks through.
pub open spec fn consumer_releases() -> Seq<WindowsRelease> {
    ConsumerRelease::all_spec().map_values(|r: ConsumerRelease| WindowsRelease::Consumer(r))
}

/// The consumer languages.
pub open spec fn consumer_languages() -> Seq<WindowsLanguage> {
    ConsumerLanguage::all_spec().map_values(|l: ConsumerLanguage| WindowsLanguage::Consumer(l))
}

/// The enterprise releases.
pub open spec fn enterprise_releases() -> Seq<WindowsRelease> {
    EnterpriseRelease::all_spec().map_values(|r: EnterpriseRelease| WindowsRelease::Enterprise(r))
}

/// The enterprise languages.
pub open spec fn enterprise_languages() -> Seq<WindowsLanguage> {
    EnterpriseLanguage::all_spec().map_values(
        |l: EnterpriseLanguage| WindowsLanguage::Enterprise(l),
    )
}

/// Every request that the rules admit: the consumer releases first, then the
/// enterprise releases; under each release its languages, and under each
/// language its architectures, all in the order of declaration.
pub open spec fn catalogue() -> Seq<WindowsEntry> {
    release_entries(consumer_releases(), consumer_languages(), WindowsArchitecture::all_spec())
        + release_entries(
        enterprise_releases(),
        enterprise_languages(),
        WindowsArchitecture::all_spec(),
    )
}

/// The requests for the given releases, languages and architectures that the
/// rules admit.
pub fn entries_of(
    releases: &Vec<WindowsRelease>,
    langs: &Vec<WindowsLanguage>,
    archs: &Vec<WindowsArchitecture>,
) -> (r: Vec<WindowsEntry>)
    ensures
        r@ == release_entries(releases@, langs@, archs@),
{
    let mut out: Vec<WindowsEntry> = Vec::new();
    let mut i: usize = 0;
    assert(releases@.take(0) =~= Seq::empty());
    while i < releases.len()
        invariant
            i <= releases.len(),
            out@ == release_entries(releases@.take(i as int), langs@, archs@),
        decreases releases.len() - i,
    {
        let release = releases[i];
        let ghost before_release = out@;
        let mut j: usize = 0;
        assert(langs@.take(0) =~= Seq::empty());
        assert(out@ + Seq::<WindowsEntry>::empty() =~= out@);
        while j < langs.len()
            invariant
                j <= langs.len(),
                i < releases.len(),
                release == releases@[i as int],
                out@ == before_release + language_entries(release, langs@.take(j as int), archs@),
            decreases langs.len() - j,
        {
            let lang = langs[j];
            let ghost before_lang = out@;
            proof {
                assert(langs@.take(j + 1).drop_last() =~= langs@.take(j as int));
                assert(langs@.take(j + 1).last() == lang);
            }
            if lang.validate(release) {
                let mut k: usize = 0;
                assert(archs@.take(0) =~= Seq::empty());
                assert(out@ + Seq::<WindowsEntry>::empty() =~= out@);
                while k < archs.len()
                    invariant
                        k <= archs.len(),
                        out@ == before_lang + arch_entries(release, lang, archs@.take(k as int)),
                    decreases archs.len() - k,
                {
                    let arch = archs[k];
                    let ghost before_arch = out@;
                    proof {
                        assert(archs@.take(k + 1).drop_last() =~= archs@.take(k as int));
                        assert(archs@.take(k + 1).last() == arch);
                    }
                    if release.validate(arch) {
                        out.push(WindowsEntry { release, arch, lang });
                        assert(out@ =~= before_lang + (arch_entries(
                            release,
                            lang,
                            archs@.take(k as int),
                        ) + seq![WindowsEntry { release, arch, lang }]));
                    } else {
                        assert(out@ =~= before_lang + (arch_entries(
                            release,
                            lang,
                            archs@.take(k as int),
                        ) + Seq::<WindowsEntry>::empty()));
                    }
                    k += 1;
                }
                assert(archs@.take(archs.len() as int) =~= archs@);
                assert(out@ =~= before_release + (language_entries(
                    release,
                    langs@.take(j as int),
                    archs@,
                ) + arch_entries(release, lang, archs@)));
            } else {
                assert(out@ =~= before_release + (language_entries(
                    release,
                    langs@.take(j as int),
                    archs@,
                ) + Seq::<WindowsEntry>::empty()));
            }
            j += 1;
        }
        proof {
            assert(langs@.take(langs.len() as int) =~= langs@);
            assert(releases@.take(i + 1).drop_last() =~= releases@.take(i as int));
            assert(releases@.take(i + 1).last() == release);
        }
        i += 1;
    }
    assert(releases@.take(releases.len() as int) =~= releases@);
    out
}

impl WindowsEntry {
    /// Every request that the rules admit.
    pub fn list_all() -> (r: Vec<Self>)
        ensures
            r@ == catalogue(),
    {
        let archs = WindowsArchitecture::all();

        let consumer = ConsumerRelease::all();
        let mut releases: Vec<WindowsRelease> = Vec::new();
        let mut i: usize = 0;
        while i < consumer.len()
            invariant
                i <= consumer.len(),
                releases@ == consumer@.take(i as int).map_values(
                    |r: ConsumerRelease| WindowsRelease::Consumer(r),
                ),
            decreases consumer.len() - i,
        {
            releases.push(WindowsRelease::Consumer(consumer[i]));
            i += 1;
            assert(releases@ =~= consumer@.take(i as int).map_values(
                |r: ConsumerRelease| WindowsRelease::Consumer(r),
            ));
        }
        assert(consumer@.take(consumer.len() as int) =~= consumer@);
        let names = ConsumerLanguage::all();
        let mut langs: Vec<WindowsLanguage> = Vec::new();
        let mut i: usize = 0;
        while i < names.len()
            invariant
                i <= names.len(),
                langs@ == names@.take(i as int).map_values(
                    |l: ConsumerLanguage| WindowsLanguage::Consumer(l),
                ),
            decreases names.len() - i,
        {
            langs.push(WindowsLanguage::Consumer(names[i]));
            i += 1;
            assert(langs@ =~= names@.take(i as int).map_values(
                |l: ConsumerLanguage| WindowsLanguage::Consumer(l),
            ));
        }
        assert(names@.take(names.len() as int) =~= names@);
        let mut out = entries_of(&releases, &langs, &archs);

        let enterprise = EnterpriseRelease::all();
        let mut releases: Vec<WindowsRelease> = Vec::new();
        let mut i: usize = 0;
        while i < enterprise.len()
            invariant
                i <= enterprise.len(),
                releases@ == enterprise@.take(i as int).map_values(
                    |r: EnterpriseRelease| WindowsRelease::Enterprise(r),
                ),
            decreases enterprise.len() - i,
        {
            releases.push(WindowsRelease::Enterprise(enterprise[i]));
            i += 1;
            assert(releases@ =~= enterprise@.take(i as int).map_values(
                |r: EnterpriseRelease| WindowsRelease::Enterprise(r),
            ));
        }
        assert(enterprise@.take(enterprise.len() as int) =~= enterprise@);
        let names = EnterpriseLanguage::all();
        let mut langs: Vec<WindowsLanguage> = Vec::new();
        let mut i: usize = 0;
        while i < names.len()
            invariant
                i <= names.len(),
                langs@ == names@.take(i as int).map_values(
                    |l: EnterpriseLanguage| WindowsLanguage::Enterprise(l),
                ),
            decreases names.len() - i,
        {
            langs.push(WindowsLanguage::Enterprise(names[i]));
            i += 1;
            assert(langs@ =~= names@.take(i as int).map_values(
                |l: EnterpriseLanguage| WindowsLanguage::Enterprise(l),
            ));
        }
        assert(names@.take(names.len() as int) =~= names@);
        let mut rest = entries_of(&releases, &langs, &archs);
        out.append(&mut rest);
        out
    }
}

/// The release is one that the list walks through: any release but a
/// product number other than 0.
pub open spec fn is_listed(release: WindowsRelease) -> bool {
    match release {
        WindowsRelease::Consumer(ConsumerRelease::CustomProductID(id)) => id == 0,
        _ => true,
    }
}

/// What two lists hold together is what one of them holds.
pub proof fn lemma_contains_add<T>(a: Seq<T>, b: Seq<T>, e: T)
    ensures
        (a + b).contains(e) <==> a.contains(e) || b.contains(e),
{
    if a.contains(e) {
        let i = choose|i: int| 0 <= i < a.len() && a[i] == e;
        assert((a + b)[i] == e);
    }
    if b.contains(e) {
        let j = choose|j: int| 0 <= j < b.len() && b[j] == e;
        assert((a + b)[a.len() + j] == e);
    }
    if (a + b).contains(e) {
        let k = choose|k: int| 0 <= k < (a + b).len() && (a + b)[k] == e;
        if k < a.len() {
            assert(a[k] == e);
        } else {
            assert(b[k - a.len()] == e);
        }
    }
}

/// What a list holds is what its front holds, or its last item.
pub proof fn lemma_contains_last<T>(s: Seq<T>, e: T)
    requires
        s.len() > 0,
    ensures
        s.contains(e) <==> s.drop_last().contains(e) || s.last() == e,
{
    assert(s =~= s.drop_last() + seq![s.last()]);
    lemma_contains_add(s.drop_last(), seq![s.last()], e);
    if seq![s.last()].contains(e) {
        let i = choose|i: int| 0 <= i < 1 && seq![s.last()][i] == e;
    }
    if s.last() == e {
        assert(seq![s.last()][0] == e);
    }
}

/// Which requests `arch_entries` holds.
pub proof fn lemma_arch_entries(
    release: WindowsRelease,
    lang: WindowsLanguage,
    archs: Seq<WindowsArchitecture>,
    e: WindowsEntry,
)
    ensures
        arch_entries(release, lang, archs).contains(e) <==> {
            &&& e.release == release
            &&& e.lang == lang
            &&& archs.contains(e.arch)
            &&& release.has_build(e.arch)
        },
    decreases archs.len(),
{
    if archs.len() == 0 {
    } else {
        let front = arch_entries(release, lang, archs.drop_last());
        let added = if release.has_build(archs.last()) {
            seq![WindowsEntry { release, arch: archs.last(), lang }]
        } else {
            Seq::empty()
        };
        lemma_arch_entries(release, lang, archs.drop_last(), e);
        lemma_contains_add(front, added, e);
        lemma_contains_last(archs, e.arch);
        if added.contains(e) {
            let i = choose|i: int| 0 <= i < added.len() && added[i] == e;
        }
        if release.has_build(archs.last()) && e == (WindowsEntry {
            release,
            arch: archs.last(),
            lang,
        }) {
            assert(added[0] == e);
        }
    }
}

/// Which requests `language_entries` holds.
pub proof fn lemma_language_entries(
    release: WindowsRelease,
    langs: Seq<WindowsLanguage>,
    archs: Seq<WindowsArchitecture>,
    e: WindowsEntry,
)
    ensures
        language_entries(release, langs, archs).contains(e) <==> {
            &&& e.release == release
            &&& langs.contains(e.lang)
            &&& archs.contains(e.arch)
            &&& e.lang.available_for(release)
            &&& release.has_build(e.arch)
        },
    decreases langs.len(),
{
    if langs.len() == 0 {
    } else {
        let front = language_entries(release, langs.drop_last(), archs);
        let added = if langs.last().available_for(release) {
            arch_entries(release, langs.last(), archs)
        } else {
            Seq::empty()
        };
        lemma_language_entries(release, langs.drop_last(), archs, e);
        lemma_arch_entries(release, langs.last(), archs, e);
        lemma_contains_add(front, added, e);
        lemma_contains_last(langs, e.lang);
    }
}

/// Which requests `release_entries` holds.
pub proof fn lemma_release_entries(
    releases: Seq<WindowsRelease>,
    langs: Seq<WindowsLanguage>,
    archs: Seq<WindowsArchitecture>,
    e: WindowsEntry,
)
    ensures
        release_entries(releases, langs, archs).contains(e) <==> {
            &&& releases.contains(e.release)
            &&& langs.contains(e.lang)
            &&& archs.contains(e.arch)
            &&& e.lang.available_for(e.release)
            &&& e.release.has_build(e.arch)
        },
    decreases releases.len(),
{
    if releases.len() == 0 {
    } else {
        let front = release_entries(releases.drop_last(), langs, archs);
        let added = language_entries(releases.last(), langs, archs);
        lemma_release_entries(releases.drop_last(), langs, archs, e);
        lemma_language_entries(releases.last(), langs, archs, e);
        lemma_contains_add(front, added, e);
        lemma_contains_last(releases, e.release);
    }
}

/// The list holds a request exactly if the rules admit it and its release is
/// one that the list walks through.
pub proof fn lemma_catalogue(e: WindowsEntry)
    ensures
        catalogue().contains(e) <==> e.is_valid() && is_listed(e.release),
{
    let archs = WindowsArchitecture::all_spec();
    let consumer = release_entries(consumer_releases(), consumer_languages(), archs);
    let enterprise = release_entries(enterprise_releases(), enterprise_languages(), archs);
    lemma_contains_add(consumer, enterprise, e);
    lemma_release_entries(consumer_releases(), consumer_languages(), archs, e);
    lemma_release_entries(enterprise_releases(), enterprise_languages(), archs, e);
    assert(archs.contains(e.arch)) by {
        assert(archs[0] == WindowsArchitecture::x86_64);
        assert(archs[1] == WindowsArchitecture::i686);
    }
    match e.lang {
        WindowsLanguage::Consumer(l) => {
            l.lemma_all();
            let k = choose|k: int|
                0 <= k < ConsumerLanguage::all_spec().len() && ConsumerLanguage::all_spec()[k] == l;
            assert(consumer_languages()[k] == e.lang);
            assert(!enterprise_languages().contains(e.lang)) by {
                if enterprise_languages().contains(e.lang) {
                    let j = choose|j: int|
                        0 <= j < enterprise_languages().len() && enterprise_languages()[j]
                            == e.lang;
                }
            }
        },
        WindowsLanguage::Enterprise(l) => {
            l.lemma_all();
            let k = choose|k: int|
                0 <= k < EnterpriseLanguage::all_spec().len() && EnterpriseLanguage::all_spec()[k]
                    == l;
            assert(enterprise_languages()[k] == e.lang);
            assert(!consumer_languages().contains(e.lang)) by {
                if consumer_languages().contains(e.lang) {
                    let j = choose|j: int|
                        0 <= j < consumer_languages().len() && consumer_languages()[j] == e.lang;
                }
            }
        },
    }
    match e.release {
        WindowsRelease::Consumer(r) => {
            assert(consumer_releases()[0] == WindowsRelease::Consumer(ConsumerRelease::Eleven));
            assert(consumer_releases()[1] == WindowsRelease::Consumer(ConsumerRelease::Ten));
            assert(consumer_releases()[2] == WindowsRelease::Consumer(
                ConsumerRelease::CustomProductID(0),
            ));
            if consumer_releases().contains(e.release) {
                let j = choose|j: int|
                    0 <= j < consumer_releases().len() && consumer_releases()[j] == e.release;
            }
        },
        WindowsRelease::Enterprise(r) => {
            r.lemma_all();
            let k = choose|k: int|
                0 <= k < EnterpriseRelease::all_spec().len() && EnterpriseRelease::all_spec()[k]
                    == r;
            assert(enterprise_releases()[k] == e.release);
        },
    }
}

} // verus!
