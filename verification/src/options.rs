//! What a runtime is created with: the interface version, the classpath,
//! heap sizes and free-form options, and the list of option strings that
//! the runtime is handed.

use vstd::prelude::*;
use vstd::string::*;
use crate::ffi::{JNIError, JNIVersion, JNI_FALSE, JNI_TRUE};
use crate::value::texts;

verus! {

/// All versions of the runtime's interface. Not every version may be
/// available in a given runtime.
#[derive(Debug, Clone, Copy, PartialEq, Eq, PartialOrd, Ord)]
pub enum Version {
    V11,
    V12,
    V14,
    V15,
    V16,
    V17,
    V18,
}

impl Version {
    /// The same version as the runtime's interface names it.
    pub open spec fn spec_ffi(self) -> JNIVersion {
        match self {
            Version::V11 => JNIVersion::JNI_VERSION_1_1,
            Version::V12 => JNIVersion::JNI_VERSION_1_2,
            Version::V14 => JNIVersion::JNI_VERSION_1_4,
            Version::V15 => JNIVersion::JNI_VERSION_1_5,
            Version::V16 => JNIVersion::JNI_VERSION_1_6,
            Version::V17 => JNIVersion::JNI_VERSION_1_7,
            Version::V18 => JNIVersion::JNI_VERSION_1_8,
        }
    }

    /// The version before this one, if there is one.
    pub open spec fn spec_previous(self) -> Option<Version> {
        match self {
            Version::V11 => None,
            Version::V12 => Some(Version::V11),
            Version::V14 => Some(Version::V12),
            Version::V15 => Some(Version::V14),
            Version::V16 => Some(Version::V15),
            Version::V17 => Some(Version::V16),
            Version::V18 => Some(Version::V17),
        }
    }

    /// The same version as the runtime's interface names it: the one with
    /// the same number.
    pub fn ffi(self) -> (version: JNIVersion)
        ensures
            version == self.spec_ffi(),
    {
        match self {
            Version::V11 => JNIVersion::JNI_VERSION_1_1,
            Version::V12 => JNIVersion::JNI_VERSION_1_2,
            Version::V14 => JNIVersion::JNI_VERSION_1_4,
            Version::V15 => JNIVersion::JNI_VERSION_1_5,
            Version::V16 => JNIVersion::JNI_VERSION_1_6,
            Version::V17 => JNIVersion::JNI_VERSION_1_7,
            Version::V18 => JNIVersion::JNI_VERSION_1_8,
        }
    }

    /// The version that the runtime's interface names so.
    pub fn from_ffi(version: JNIVersion) -> (v: Version)
        ensures
            v.spec_ffi() == version,
    {
        match version {
            JNIVersion::JNI_VERSION_1_1 => Version::V11,
            JNIVersion::JNI_VERSION_1_2 => Version::V12,
            JNIVersion::JNI_VERSION_1_4 => Version::V14,
            JNIVersion::JNI_VERSION_1_5 => Version::V15,
            JNIVersion::JNI_VERSION_1_6 => Version::V16,
            JNIVersion::JNI_VERSION_1_7 => Version::V17,
            JNIVersion::JNI_VERSION_1_8 => Version::V18,
        }
    }

    /// The number by which the runtime knows this version.
    pub fn code(self) -> (code: i32)
        ensures
            code == self.spec_ffi().spec_code(),
    {
        self.ffi().code()
    }
}

/// What the search for the latest supported version does next.
#[derive(Debug, Clone, Copy, PartialEq, Eq)]
pub enum Probe {
    /// Ask the runtime whether it supports this version.
    Try(Version),
    /// The runtime supports this version, and none of those tried before.
    Found(Version),
    /// The runtime supports none of the versions tried.
    Unsupported,
}

/// The next step of the search for the latest version that the runtime
/// supports. The search starts (`tried` is `None`) at version 1.7 and goes
/// down. `tried` holds the version asked about last and the status that
/// the runtime returned for it: with `JNI_OK` the version is found; with
/// any other status the version before it comes next, and after the first
/// version the search has failed.
pub fn latest_jvm_version(tried: Option<(Version, JNIError)>) -> (probe: Probe)
    ensures
        probe == match tried {
            None => Probe::Try(Version::V17),
            Some((version, JNIError::JNI_OK)) => Probe::Found(version),
            Some((version, _)) => match version.spec_previous() {
                Some(previous) => Probe::Try(previous),
                None => Probe::Unsupported,
            },
        },
{
    match tried {
        None => Probe::Try(Version::V17),
        Some((version, JNIError::JNI_OK)) => Probe::Found(version),
        Some((version, _)) => match version {
            Version::V11 => Probe::Unsupported,
            Version::V12 => Probe::Try(Version::V11),
            Version::V14 => Probe::Try(Version::V12),
            Version::V15 => Probe::Try(Version::V14),
            Version::V16 => Probe::Try(Version::V15),
            Version::V17 => Probe::Try(Version::V16),
            Version::V18 => Probe::Try(Version::V17),
        },
    }
}

/// The decimal digit for a number below ten.
pub open spec fn spec_digit(d: nat) -> char {
    if d == 0 {
        '0'
    } else if d == 1 {
        '1'
    } else if d == 2 {
        '2'
    } else if d == 3 {
        '3'
    } else if d == 4 {
        '4'
    } else if d == 5 {
        '5'
    } else if d == 6 {
        '6'
    } else if d == 7 {
        '7'
    } else if d == 8 {
        '8'
    } else {
        '9'
    }
}

/// A number in decimal digits, without leading zeros.
pub open spec fn spec_decimal(n: nat) -> Seq<char>
    decreases n,
{
    if n < 10 {
        seq![spec_digit(n)]
    } else {
        spec_decimal(n / 10).push(spec_digit(n % 10))
    }
}

/// The decimal digit for a number below ten, as text.
fn digit(d: usize) -> (text: &'static str)
    requires
        d < 10,
    ensures
        text@ == seq![spec_digit(d as nat)],
{
    proof {
        reveal_strlit("0");
        reveal_strlit("1");
        reveal_strlit("2");
        reveal_strlit("3");
        reveal_strlit("4");
        reveal_strlit("5");
        reveal_strlit("6");
        reveal_strlit("7");
        reveal_strlit("8");
        reveal_strlit("9");
    }
    let text = if d == 0 {
        "0"
    } else if d == 1 {
        "1"
    } else if d == 2 {
        "2"
    } else if d == 3 {
        "3"
    } else if d == 4 {
        "4"
    } else if d == 5 {
        "5"
    } else if d == 6 {
        "6"
    } else if d == 7 {
        "7"
    } else if d == 8 {
        "8"
    } else {
        "9"
    };
    assert(text@ =~= seq![spec_digit(d as nat)]);
    text
}

/// Appends a number in decimal digits to a text.
fn push_decimal(text: &mut String, n: usize)
    ensures
        final(text)@ == old(text)@ + spec_decimal(n as nat),
    decreases n,
{
    if n >= 10 {
        push_decimal(text, n / 10);
    }
    text.append(digit(n % 10));
    assert(text@ =~= old(text)@ + spec_decimal(n as nat));
}

/// A list of places in the file system where the runtime looks for the
/// classes that it loads.
#[derive(Debug, Clone, PartialEq, Eq)]
pub struct Classpath {
    paths: Vec<String>,
}

impl View for Classpath {
    type V = Seq<Seq<char>>;

    closed spec fn view(&self) -> Seq<Seq<char>> {
        texts(self.paths@)
    }
}

/// The classpath as one text: each path followed by the separator.
pub open spec fn spec_classpath(paths: Seq<Seq<char>>, separator: char) -> Seq<char>
    decreases paths.len(),
{
    if paths.len() == 0 {
        Seq::empty()
    } else {
        spec_classpath(paths.drop_last(), separator) + paths.last().push(separator)
    }
}

/// The character that separates the paths of a classpath: `;` on Windows
/// and `:` elsewhere.
pub open spec fn spec_separator(windows: bool) -> char {
    if windows {
        ';'
    } else {
        ':'
    }
}

impl Classpath {
    /// Creates an empty classpath.
    pub fn new() -> (classpath: Classpath)
        ensures
            classpath@ == Seq::<Seq<char>>::empty(),
    {
        let classpath = Classpath { paths: Vec::new() };
        assert(classpath@ =~= Seq::<Seq<char>>::empty());
        classpath
    }

    /// Adds a path to the classpath: a directory that holds compiled
    /// classes, or an archive of them.
    pub fn add(self, path: &str) -> (classpath: Classpath)
        ensures
            classpath@ == self@.push(path@),
    {
        let mut paths = self.paths;
        paths.push(path.to_owned());
        let classpath = Classpath { paths };
        assert(classpath@ =~= self@.push(path@));
        classpath
    }

    /// Appends the classpath to a text: each path followed by the
    /// separator of the platform.
    pub fn build(&self, string: &mut String, windows: bool)
        ensures
            final(string)@ == old(string)@ + spec_classpath(self@, spec_separator(windows)),
    {
        proof {
            reveal_strlit(";");
            reveal_strlit(":");
        }
        let ghost all = self@;
        let ghost separator = spec_separator(windows);
        let mut i: usize = 0;
        assert(all.take(0) =~= Seq::<Seq<char>>::empty());
        assert(string@ =~= old(string)@ + spec_classpath(all.take(0), separator));
        while i < self.paths.len()
            invariant
                i <= self.paths.len(),
                all == self@,
                separator == spec_separator(windows),
                string@ == old(string)@ + spec_classpath(all.take(i as int), separator),
                ";"@ == seq![';'],
                ":"@ == seq![':'],
            decreases self.paths.len() - i,
        {
            let ghost before = string@;
            string.append(self.paths[i].as_str());
            if windows {
                string.append(";");
            } else {
                string.append(":");
            }
            proof {
                assert(all.take(i + 1).drop_last() =~= all.take(i as int));
                assert(all.take(i + 1).last() == self.paths[i as int]@);
                assert(string@ =~= before + self.paths[i as int]@.push(separator));
                assert(string@ =~= old(string)@ + spec_classpath(all.take(i + 1), separator));
            }
            i = i + 1;
        }
        assert(all.take(i as int) =~= all);
    }
}

/// The arguments with which a runtime is created, as plain values.
#[allow(non_snake_case)]
#[derive(Debug, Clone, PartialEq, Eq)]
pub struct JavaVMInitArgs {
    /// The interface version asked for.
    pub version: JNIVersion,
    /// The number of option strings.
    pub nOptions: i32,
    /// The option strings, in the order in which the runtime gets them.
    pub options: Vec<String>,
    /// Whether the runtime is to ignore options that it does not know: a
    /// runtime boolean.
    pub ignoreUnrecognized: u8,
}

impl JavaVMInitArgs {
    /// Arguments for the latest version, without options.
    pub fn empty() -> (args: JavaVMInitArgs)
        ensures
            args.version == JNIVersion::JNI_VERSION_1_8,
            args.nOptions == 0,
            args.options@.len() == 0,
            args.ignoreUnrecognized == JNI_TRUE,
    {
        JavaVMInitArgs {
            version: JNIVersion::JNI_VERSION_1_8,
            nOptions: 0,
            options: Vec::new(),
            ignoreUnrecognized: JNI_TRUE,
        }
    }
}

/// Initialisation options for a runtime.
#[derive(Debug, Clone, PartialEq, Eq)]
pub struct Options {
    version: Version,
    classpath: Classpath,
    initial_heap_size: usize,
    max_heap_size: usize,
    ignore_unrecognised: bool,
    custom: Vec<String>,
}

/// What [`Options`] hold, with text as sequences of characters.
pub struct OptionsView {
    pub version: Version,
    pub classpath: Seq<Seq<char>>,
    /// The initial heap size in bytes; 0 if none is set.
    pub initial_heap_size: nat,
    /// The maximum heap size in bytes; 0 if none is set.
    pub max_heap_size: nat,
    pub ignore_unrecognised: bool,
    /// The custom options, in the order in which they were added.
    pub custom: Seq<Seq<char>>,
}

impl View for Options {
    type V = OptionsView;

    closed spec fn view(&self) -> OptionsView {
        OptionsView {
            version: self.version,
            classpath: self.classpath@,
            initial_heap_size: self.initial_heap_size as nat,
            max_heap_size: self.max_heap_size as nat,
            ignore_unrecognised: self.ignore_unrecognised,
            custom: texts(self.custom@),
        }
    }
}

/// An option that sets a heap size, if the size is not 0: the prefix and
/// the size in decimal digits.
pub open spec fn spec_heap_option(prefix: Seq<char>, size: nat) -> Seq<Seq<char>> {
    if size > 0 {
        seq![prefix + spec_decimal(size)]
    } else {
        Seq::empty()
    }
}

impl OptionsView {
    /// The option strings for the runtime: the initial heap size and the
    /// maximum heap size, each if it is set; the classpath; and the custom
    /// options, the last one added first.
    pub open spec fn spec_option_strings(self, windows: bool) -> Seq<Seq<char>> {
        spec_heap_option("-Xms"@, self.initial_heap_size) + spec_heap_option(
            "-Xmx"@,
            self.max_heap_size,
        ) + seq![
            "-Djava.class.path="@ + spec_classpath(self.classpath, spec_separator(windows)),
        ] + self.custom.reverse()
    }

    /// How many option strings the runtime is handed.
    pub open spec fn spec_option_count(self) -> nat {
        self.spec_option_strings(true).len()
    }
}

impl Options {
    /// Creates an empty set of options: the first version, an empty
    /// classpath, no heap sizes, no custom options, and unknown options
    /// ignored.
    pub fn new() -> (options: Options)
        ensures
            options@ == (OptionsView {
                version: Version::V11,
                classpath: Seq::empty(),
                initial_heap_size: 0,
                max_heap_size: 0,
                ignore_unrecognised: true,
                custom: Seq::empty(),
            }),
    {
        let options = Options {
            version: Version::V11,
            classpath: Classpath::new(),
            initial_heap_size: 0,
            max_heap_size: 0,
            ignore_unrecognised: true,
            custom: Vec::new(),
        };
        assert(options@.custom =~= Seq::<Seq<char>>::empty());
        options
    }

    /// Creates the options that the runtime recommends, from the arguments
    /// that it filled in for a version it supports: that version, and
    /// whether unknown options are ignored; everything else as in
    /// [`Options::new`].
    pub fn recommended(args: &JavaVMInitArgs) -> (options: Options)
        ensures
            options@ == (OptionsView {
                version: options@.version,
                classpath: Seq::empty(),
                initial_heap_size: 0,
                max_heap_size: 0,
                ignore_unrecognised: args.ignoreUnrecognized == JNI_TRUE,
                custom: Seq::empty(),
            }),
            options@.version.spec_ffi() == args.version,
    {
        let options = Options {
            version: Version::from_ffi(args.version),
            classpath: Classpath::new(),
            initial_heap_size: 0,
            max_heap_size: 0,
            ignore_unrecognised: args.ignoreUnrecognized == JNI_TRUE,
            custom: Vec::new(),
        };
        assert(options@.custom =~= Seq::<Seq<char>>::empty());
        options
    }

    /// Sets the interface version to use.
    pub fn version(self, version: Version) -> (options: Options)
        ensures
            options@ == (OptionsView { version, ..self@ }),
    {
        let mut options = self;
        options.version = version;
        options
    }

    /// Sets the classpath.
    pub fn classpath(self, classpath: Classpath) -> (options: Options)
        ensures
            options@ == (OptionsView { classpath: classpath@, ..self@ }),
    {
        let mut options = self;
        options.classpath = classpath;
        options
    }

    /// Sets the initial heap size in bytes; 0 unsets it.
    pub fn initial_heap_size(self, size: usize) -> (options: Options)
        ensures
            options@ == (OptionsView { initial_heap_size: size as nat, ..self@ }),
    {
        let mut options = self;
        options.initial_heap_size = size;
        options
    }

    /// Sets the maximum heap size in bytes; 0 unsets it.
    pub fn max_heap_size(self, size: usize) -> (options: Options)
        ensures
            options@ == (OptionsView { max_heap_size: size as nat, ..self@ }),
    {
        let mut options = self;
        options.max_heap_size = size;
        options
    }

    /// Sets whether the runtime ignores options that it does not know.
    pub fn ignore_unrecognized_arguments(self, flag: bool) -> (options: Options)
        ensures
            options@ == (OptionsView { ignore_unrecognised: flag, ..self@ }),
    {
        let mut options = self;
        options.ignore_unrecognised = flag;
        options
    }

    /// Adds a custom option, as it would be written on the command line
    /// of the runtime.
    pub fn custom(self, arg: &str) -> (options: Options)
        ensures
            options@ == (OptionsView { custom: self@.custom.push(arg@), ..self@ }),
    {
        let mut options = self;
        options.custom.push(arg.to_owned());
        assert(options@.custom =~= self@.custom.push(arg@));
        options
    }

    /// Builds the arguments with which the runtime is created: the
    /// version, the option strings and their number, and the runtime
    /// boolean for ignoring unknown options. There are none if the number
    /// of option strings is more than the runtime can be told.
    pub fn build(self, windows: bool) -> (built: Option<JavaVMInitArgs>)
        ensures
            built is Some <==> self@.spec_option_count() <= i32::MAX,
            built matches Some(args) ==> {
                &&& args.version == self@.version.spec_ffi()
                &&& texts(args.options@) == self@.spec_option_strings(windows)
                &&& args.nOptions == args.options@.len()
                &&& args.ignoreUnrecognized == (if self@.ignore_unrecognised {
                    JNI_TRUE
                } else {
                    JNI_FALSE
                })
            },
    {
        let ghost view = self@;
        let fixed_count: usize = 1 + (if self.initial_heap_size > 0 {
            1usize
        } else {
            0usize
        }) + (if self.max_heap_size > 0 {
            1usize
        } else {
            0usize
        });
        if self.custom.len() > 0x7fff_ffff - fixed_count {
            return None;
        }
        let mut options: Vec<String> = Vec::new();
        if self.initial_heap_size > 0 {
            let mut option = "-Xms".to_owned();
            push_decimal(&mut option, self.initial_heap_size);
            options.push(option);
        }
        if self.max_heap_size > 0 {
            let mut option = "-Xmx".to_owned();
            push_decimal(&mut option, self.max_heap_size);
            options.push(option);
        }
        let mut classpath = "-Djava.class.path=".to_owned();
        self.classpath.build(&mut classpath, windows);
        options.push(classpath);
        let ghost fixed = texts(options@);
        assert(fixed =~= spec_heap_option("-Xms"@, view.initial_heap_size) + spec_heap_option(
            "-Xmx"@,
            view.max_heap_size,
        ) + seq![
            "-Djava.class.path="@ + spec_classpath(view.classpath, spec_separator(windows)),
        ]);
        let mut custom = self.custom;
        let ghost all = texts(custom@);
        while custom.len() > 0
            invariant
                all == view.custom,
                custom@.len() <= all.len(),
                texts(custom@) == all.take(custom@.len() as int),
                texts(options@) == fixed + all.subrange(
                    custom@.len() as int,
                    all.len() as int,
                ).reverse(),
                fixed.len() == fixed_count,
                all.len() + fixed_count <= i32::MAX,
            decreases custom.len(),
        {
            let ghost before = custom@;
            let ghost taken = texts(options@);
            let option = custom.pop().unwrap();
            options.push(option);
            proof {
                let n = custom@.len() as int;
                assert(texts(before)[n] == before[n]@);
                assert(all.take(before.len() as int)[n] == all[n]);
                assert(option@ == all[n]);
                assert(texts(custom@) =~= all.take(n));
                assert(all.subrange(n, all.len() as int).reverse() =~= all.subrange(
                    n + 1,
                    all.len() as int,
                ).reverse().push(all[n]));
                assert(texts(options@) =~= taken.push(option@));
            }
        }
        assert(all.subrange(0, all.len() as int) =~= all);
        let count: i32 = options.len() as i32;
        Some(
            JavaVMInitArgs {
                version: self.version.ffi(),
                nOptions: count,
                options,
                ignoreUnrecognized: if self.ignore_unrecognised {
                    JNI_TRUE
                } else {
                    JNI_FALSE
                },
            },
        )
    }
}

} // verus!
