use vstd::prelude::*;

verus! {

/// Outcome of a call into the native runtime, as the library sees it.
pub open spec fn spec_status_result(code: i32) -> Result<(), i32> {
    if code == 0 {
        Ok(())
    } else {
        Err(code)
    }
}

/// Turns the integer status that the native runtime returns from its
/// initialise and destroy entry points into a `Result`: zero is success,
/// any other value is the failure code, handed on unchanged.
pub fn status_result(code: i32) -> (r: Result<(), i32>)
    ensures
        r == spec_status_result(code),
        r is Ok <==> code == 0,
{
    if code == 0 {
        Ok(())
    } else {
        Err(code)
    }
}

/// The instance directory used when none is given: `./.occlum`, in ASCII.
pub open spec fn default_instance_dir() -> Seq<u8> {
    seq![46u8, 47, 46, 111, 99, 99, 108, 117, 109]
}

/// The log level used when none is given: `off`, in ASCII.
pub open spec fn default_log_level() -> Seq<u8> {
    seq![111u8, 102, 102]
}

/// Why a configuration cannot be handed to the native runtime.
#[derive(Clone, Copy, Debug, PartialEq, Eq, Structural)]
pub enum ConfigError {
    /// The instance directory is mandatory and may not be empty.
    EmptyInstanceDir,
    /// A value holds a NUL byte, so it cannot be passed as a C string.
    InteriorNul,
}

/// The attributes handed to the native runtime when it is initialised, each
/// a NUL-terminated byte string.
#[derive(Debug)]
pub struct PalConfig {
    pub instance_dir: Vec<u8>,
    pub log_level: Vec<u8>,
}

/// `v` holds no NUL byte.
pub open spec fn nul_free(v: Seq<u8>) -> bool {
    forall|i: int| 0 <= i < v.len() ==> v[i] != 0
}

/// The value in force: the override where one is given, else the default.
pub open spec fn chosen(o: Option<Vec<u8>>, default: Seq<u8>) -> Seq<u8> {
    match o {
        Some(v) => v@,
        None => default,
    }
}

/// The configuration that `instance_dir` and `log_level` stand for.
pub open spec fn spec_pal_config(instance_dir: Option<Vec<u8>>, log_level: Option<Vec<u8>>) -> Result<
    (Seq<u8>, Seq<u8>),
    ConfigError,
> {
    let dir = chosen(instance_dir, default_instance_dir());
    let level = chosen(log_level, default_log_level());
    if dir.len() == 0 {
        Err(ConfigError::EmptyInstanceDir)
    } else if !nul_free(dir) || !nul_free(level) {
        Err(ConfigError::InteriorNul)
    } else {
        Ok((dir.push(0u8), level.push(0u8)))
    }
}

/// Decides whether `v` holds a NUL byte.
fn has_nul(v: &Vec<u8>) -> (r: bool)
    ensures
        r == !nul_free(v@),
{
    let mut i: usize = 0;
    while i < v.len()
        invariant
            i <= v@.len(),
            forall|j: int| 0 <= j < i ==> v@[j] != 0,
        decreases v@.len() - i,
    {
        if v[i] == 0 {
            return true;
        }
        i = i + 1;
    }
    false
}

/// Builds the attributes for the native runtime from two optional
/// overrides: the instance directory (default `./.occlum`) and the log level
/// (default `off`). Each value in force is terminated by a NUL byte. An
/// empty instance directory is refused, and so is a value that already
/// holds a NUL byte.
pub fn pal_config(instance_dir: Option<Vec<u8>>, log_level: Option<Vec<u8>>) -> (r: Result<
    PalConfig,
    ConfigError,
>)
    ensures
        match (r, spec_pal_config(instance_dir, log_level)) {
            (Ok(c), Ok((dir, level))) => c.instance_dir@ == dir && c.log_level@ == level,
            (Err(e), Err(f)) => e == f,
            _ => false,
        },
{
    let ghost dir_in = instance_dir;
    let ghost level_in = log_level;
    let mut dir = match instance_dir {
        Some(v) => v,
        None => vec![46u8, 47, 46, 111, 99, 99, 108, 117, 109],
    };
    let mut level = match log_level {
        Some(v) => v,
        None => vec![111u8, 102, 102],
    };
    assert(dir@ == chosen(dir_in, default_instance_dir()));
    assert(level@ == chosen(level_in, default_log_level()));
    if dir.len() == 0 {
        return Err(ConfigError::EmptyInstanceDir);
    }
    if has_nul(&dir) || has_nul(&level) {
        return Err(ConfigError::InteriorNul);
    }
    dir.push(0u8);
    level.push(0u8);
    Ok(PalConfig { instance_dir: dir, log_level: level })
}

} // verus!
