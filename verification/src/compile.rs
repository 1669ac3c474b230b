//! Building and testing a plugin, and the development server: the checks made
//! before a build, the reports made after it, and the routing of the dev server.
use vstd::prelude::*;

use crate::examples::{entry_extension, find_wasm, FileName};
use crate::size::{decimal, format_size, push_decimal, size_text};
use crate::text::{chars_of, push_char, trim_bounds, trim_ws};

verus! {

/// The error of `ezer build` outside a plugin's folder.
pub const NO_MANIFEST_ERROR: &'static str = "No se encontró Cargo.toml en el directorio actual.\nAsegúrate de ejecutar 'ezer build' dentro de la carpeta de un plugin.";

/// The error of `ezer build` when the WebAssembly target is missing.
pub const NO_TARGET_ERROR: &'static str = "El target wasm32-unknown-unknown no está instalado.\nEjecuta: rustup target add wasm32-unknown-unknown";

/// The compilation target of plugins.
pub const WASM_TARGET: &'static str = "wasm32-unknown-unknown";

/// The error when the build output holds no `.wasm` file.
pub const NO_WASM_ERROR: &'static str = "No se encontró el archivo .wasm compilado.";

/// The body of the dev server's answer while no module can be served.
pub const WASM_UNAVAILABLE: &'static str = "WASM no disponible o en compilación.";

/// How many times the dev server reads the module before it gives up.
pub const WASM_ATTEMPTS: u32 = 5;

/// The checks `ezer build` makes before compiling, in order: a `Cargo.toml` in
/// the current folder, then the installed WebAssembly target.
pub open spec fn precheck_of(has_manifest: bool, target_installed: bool) -> Result<(), Seq<char>> {
    if !has_manifest {
        Err(NO_MANIFEST_ERROR@)
    } else if !target_installed {
        Err(NO_TARGET_ERROR@)
    } else {
        Ok(())
    }
}

/// Decides whether a build may start.
pub fn build_precheck(has_manifest: bool, target_installed: bool) -> (r: Result<(), String>)
    ensures
        match (r, precheck_of(has_manifest, target_installed)) {
            (Ok(()), Ok(())) => true,
            (Err(m), Err(e)) => m@ == e,
            _ => false,
        },
{
    if !has_manifest {
        Err(String::from_str(NO_MANIFEST_ERROR))
    } else if !target_installed {
        Err(String::from_str(NO_TARGET_ERROR))
    } else {
        Ok(())
    }
}

/// The error of a failed compilation, with the compiler's error output.
pub fn build_failure(stderr: &str) -> (r: String)
    ensures
        r@ == "Fallo en la compilación:\n"@ + stderr@,
{
    let mut s = String::from_str("Fallo en la compilación:\n");
    s.append(stderr);
    s
}

/// The outcome of `ezer test`: success, or the failure with the test output.
pub fn test_outcome(success: bool, stderr: &str) -> (r: Result<(), String>)
    ensures
        success ==> r is Ok,
        !success ==> (r matches Err(m) && m@ == "Tests fallaron:\n"@ + stderr@),
{
    if success {
        Ok(())
    } else {
        let mut s = String::from_str("Tests fallaron:\n");
        s.append(stderr);
        Err(s)
    }
}

/// Whether `s[i..j]` is one line of `s`: it starts at the beginning or after a
/// line break, ends at the end or at a line break, and holds none.
pub open spec fn is_line(s: Seq<char>, i: int, j: int) -> bool {
    &&& 0 <= i <= j <= s.len()
    &&& (i == 0 || s[i - 1] == '\n')
    &&& (j == s.len() || s[j] == '\n')
    &&& forall|k: int| i <= k < j ==> s[k] != '\n'
}

/// Whether some line of `s`, trimmed, is exactly `target`.
pub open spec fn has_line(s: Seq<char>, target: Seq<char>) -> bool {
    exists|i: int, j: int| is_line(s, i, j) && trim_ws(#[trigger] s.subrange(i, j)) == target
}

/// The characters `v[i..j]` as a vector.
fn slice_chars(v: &Vec<char>, i: usize, j: usize) -> (r: Vec<char>)
    requires
        i <= j <= v.len(),
    ensures
        r@ == v@.subrange(i as int, j as int),
{
    let mut out: Vec<char> = Vec::new();
    let mut k = i;
    while k < j
        invariant
            i <= k <= j <= v.len(),
            out@ == v@.subrange(i as int, k as int),
        decreases j - k,
    {
        out.push(v[k]);
        k = k + 1;
        assert(out@ =~= v@.subrange(i as int, k as int));
    }
    out
}

/// Whether `v`, trimmed, is exactly `t`.
fn trimmed_is(v: &Vec<char>, t: &Vec<char>) -> (r: bool)
    ensures
        r == (trim_ws(v@) == t@),
{
    let (a, b) = trim_bounds(v);
    if b - a != t.len() {
        return false;
    }
    let mut k: usize = 0;
    while k < t.len()
        invariant
            a <= b <= v.len(),
            b - a == t.len(),
            k <= t.len(),
            v@.subrange(a as int, b as int) == trim_ws(v@),
            forall|m: int| 0 <= m < k ==> v@[a + m] == t@[m],
        decreases t.len() - k,
    {
        if v[a + k] != t[k] {
            assert(trim_ws(v@)[k as int] != t@[k as int]);
            return false;
        }
        k = k + 1;
    }
    assert(trim_ws(v@) =~= t@);
    true
}

/// A line of `s` is fixed by where it ends.
proof fn lemma_line_start_unique(s: Seq<char>, i: int, i2: int, j: int)
    requires
        is_line(s, i, j),
        0 <= i2 <= j,
        i2 == 0 || s[i2 - 1] == '\n',
        forall|k: int| i2 <= k < j ==> s[k] != '\n',
    ensures
        i == i2,
{
    if i < i2 {
        assert(s[i2 - 1] != '\n');
    } else if i2 < i {
        assert(s[i - 1] != '\n');
    }
}

/// Reads the list of installed targets (what `rustup target list --installed`
/// printed, or `None` when it could not run): whether the WebAssembly target is
/// among its lines.
pub fn wasm_target_listed(stdout: Option<&str>) -> (r: bool)
    ensures
        r == match stdout {
            Some(s) => has_line(s@, WASM_TARGET@),
            None => false,
        },
{
    let s = match stdout {
        Some(s) => s,
        None => {
            return false;
        },
    };
    let v = chars_of(s);
    let t = chars_of(WASM_TARGET);
    let ghost sv = s@;
    let mut found = false;
    let mut start: usize = 0;
    let mut k: usize = 0;
    while k < v.len()
        invariant
            v@ == sv,
            t@ == WASM_TARGET@,
            start <= k <= v.len(),
            start == 0 || sv[start - 1] == '\n',
            forall|m: int| start <= m < k ==> sv[m] != '\n',
            found <==> exists|i: int, j: int|
                j < k && is_line(sv, i, j) && trim_ws(#[trigger] sv.subrange(i, j)) == t@,
        decreases v.len() - k,
    {
        if v[k] == '\n' {
            let line = slice_chars(&v, start, k);
            let hit = trimmed_is(&line, &t);
            proof {
                lemma_line_step(sv, t@, start as int, k as int, found, hit);
            }
            found = found || hit;
            start = k + 1;
        } else {
            proof {
                assert forall|i: int, j: int|
                    j < k + 1 && is_line(sv, i, j) implies j < k by {
                    if j == k {
                        assert(sv[j] != '\n');
                    }
                }
            }
        }
        k = k + 1;
    }
    let line = slice_chars(&v, start, v.len());
    let hit = trimmed_is(&line, &t);
    proof {
        lemma_line_step(sv, t@, start as int, sv.len() as int, found, hit);
        assert forall|i: int, j: int| is_line(sv, i, j) implies j < sv.len() + 1 by {}
    }
    found || hit
}

/// One step of the line scan: the lines that end before `k + 1` hold the target
/// when those before `k` do or the line `s[start..k]` does.
proof fn lemma_line_step(s: Seq<char>, t: Seq<char>, start: int, k: int, found: bool, hit: bool)
    requires
        0 <= start <= k <= s.len(),
        start == 0 || s[start - 1] == '\n',
        k == s.len() || s[k] == '\n',
        forall|m: int| start <= m < k ==> s[m] != '\n',
        found <==> exists|i: int, j: int|
            j < k && is_line(s, i, j) && trim_ws(#[trigger] s.subrange(i, j)) == t,
        hit == (trim_ws(s.subrange(start, k)) == t),
    ensures
        (found || hit) <==> exists|i: int, j: int|
            j < k + 1 && is_line(s, i, j) && trim_ws(#[trigger] s.subrange(i, j)) == t,
{
    assert(is_line(s, start, k));
    if !(found || hit) {
        assert forall|i: int, j: int| j < k + 1 && is_line(s, i, j) implies trim_ws(
            #[trigger] s.subrange(i, j),
        ) != t by {
            if j == k {
                lemma_line_start_unique(s, i, start, j);
            }
        }
    }
}

/// Picks the compiled module among the entries of the build output, read in
/// order until the listing failed (`failure`, the error reported then): the first
/// `.wasm` file; when there is none, the listing's error, else the error that no
/// module was found.
pub fn locate_wasm(files: &Vec<FileName>, failure: Option<String>) -> (r: Result<usize, String>)
    ensures
        match r {
            Ok(i) => {
                &&& i < files.len()
                &&& entry_extension(files@[i as int]@) == Some("wasm"@)
                &&& forall|j: int| 0 <= j < i ==> entry_extension(#[trigger] files@[j]@) != Some("wasm"@)
            },
            Err(m) => {
                &&& m@ == match failure {
                    Some(e) => e@,
                    None => NO_WASM_ERROR@,
                }
                &&& forall|j: int|
                    0 <= j < files.len() ==> entry_extension(#[trigger] files@[j]@) != Some(
                        "wasm"@,
                    )
            },
        },
{
    match find_wasm(files) {
        Some(i) => Ok(i),
        None => match failure {
            Some(e) => Err(e),
            None => Err(String::from_str(NO_WASM_ERROR)),
        },
    }
}

/// The sizes shown after optimizing the module: before, after, and how much
/// less (zero when it grew).
pub fn optimization_summary(original: u64, optimized: u64) -> (r: (String, String, String))
    ensures
        r.0@ == size_text(original as nat),
        r.1@ == size_text(optimized as nat),
        r.2@ == size_text(
            if original >= optimized {
                (original - optimized) as nat
            } else {
                0nat
            },
        ),
{
    let saved = original.saturating_sub(optimized);
    (format_size(original), format_size(optimized), format_size(saved))
}

/// What the dev server serves.
#[derive(PartialEq, Eq, Structural, Clone, Copy, Debug)]
pub enum DevRoute {
    /// The compiled module.
    Wasm,
    /// The rebuild counter, as JSON.
    Status,
    /// The page that runs the plugin.
    Page,
}

/// The path of a request URL: what comes before the first `?`.
pub open spec fn before_query(url: Seq<char>) -> Seq<char>
    decreases url.len(),
{
    if url.len() == 0 {
        url
    } else if url[0] == '?' {
        seq![]
    } else {
        seq![url[0]] + before_query(url.drop_first())
    }
}

/// The route of a request URL.
pub open spec fn route_of(url: Seq<char>) -> DevRoute {
    let path = before_query(url);
    if path == "/plugin.wasm"@ {
        DevRoute::Wasm
    } else if path == "/status"@ {
        DevRoute::Status
    } else {
        DevRoute::Page
    }
}

/// The path ends at the first `?`, or at the end.
proof fn lemma_before_query(s: Seq<char>, i: int)
    requires
        0 <= i <= s.len(),
        forall|k: int| 0 <= k < i ==> s[k] != '?',
        i == s.len() || s[i] == '?',
    ensures
        before_query(s) == s.subrange(0, i),
    decreases s.len(),
{
    if s.len() == 0 {
        assert(s.subrange(0, i) =~= s);
    } else if s[0] == '?' {
        assert(s.subrange(0, i) =~= seq![]);
    } else {
        let rest = s.drop_first();
        assert forall|k: int| 0 <= k < i - 1 implies rest[k] != '?' by {
            assert(rest[k] == s[k + 1]);
        }
        lemma_before_query(rest, i - 1);
        assert(seq![s[0]] + rest.subrange(0, i - 1) =~= s.subrange(0, i));
    }
}

/// The query part of a URL never changes its route: a path without `?`
/// followed by `?` and anything routes as the path alone.
pub proof fn lemma_route_ignores_query(path: Seq<char>, query: Seq<char>)
    requires
        forall|k: int| 0 <= k < path.len() ==> path[k] != '?',
    ensures
        route_of(path + seq!['?'] + query) == route_of(path),
{
    let url = path + seq!['?'] + query;
    assert forall|k: int| 0 <= k < path.len() implies url[k] != '?' by {
        assert(url[k] == path[k]);
    }
    lemma_before_query(url, path.len() as int);
    lemma_before_query(path, path.len() as int);
    assert(url.subrange(0, path.len() as int) =~= path);
    assert(path.subrange(0, path.len() as int) =~= path);
}

/// Routes a request of the dev server by its URL.
pub fn dev_route(url: &str) -> (r: DevRoute)
    ensures
        r == route_of(url@),
{
    let v = chars_of(url);
    let mut i: usize = 0;
    while i < v.len() && v[i] != '?'
        invariant
            i <= v.len(),
            forall|k: int| 0 <= k < i ==> v@[k] != '?',
        decreases v.len() - i,
    {
        i = i + 1;
    }
    proof {
        lemma_before_query(v@, i as int);
    }
    let path = slice_chars(&v, 0, i);
    let wasm = chars_of("/plugin.wasm");
    let status = chars_of("/status");
    if crate::text::chars_eq(&path, &wasm) {
        DevRoute::Wasm
    } else if crate::text::chars_eq(&path, &status) {
        DevRoute::Status
    } else {
        DevRoute::Page
    }
}

/// The body of `/status`: `{"rebuild":N}` with the number of rebuilds.
pub fn status_body(rebuilds: u64) -> (r: String)
    ensures
        r@ == "{\"rebuild\":"@ + decimal(rebuilds as nat) + "}"@,
{
    let mut s = String::from_str("{\"rebuild\":");
    push_decimal(&mut s, rebuilds as u128);
    push_char(&mut s, '}');
    proof {
        reveal_strlit("}");
        assert(s@ =~= "{\"rebuild\":"@ + decimal(rebuilds as nat) + "}"@);
    }
    s
}

/// The number of successful rebuilds after one more rebuild: one more when it
/// succeeded (wrapping around at the top, as an atomic counter does), the same
/// when it failed.
pub open spec fn rebuild_count_after(count: u64, build_ok: bool) -> u64 {
    if build_ok {
        ((count + 1) % 0x1_0000_0000_0000_0000) as u64
    } else {
        count
    }
}

/// Counts a rebuild of the dev server's watcher.
pub fn next_rebuild_count(count: u64, build_ok: bool) -> (r: u64)
    ensures
        r == rebuild_count_after(count, build_ok),
{
    if !build_ok {
        count
    } else if count == u64::MAX {
        0
    } else {
        count + 1
    }
}

/// What the dev server does after one read of the module.
#[derive(PartialEq, Eq, Structural, Clone, Copy, Debug)]
pub enum WasmStep {
    /// Serve what was read.
    Serve,
    /// Wait a moment and read again.
    Retry,
    /// Wait a moment and answer that no module is available.
    Unavailable,
}

/// The step after read number `attempt` (from 0) of the module, given what the
/// read gave (`None` when it failed): a non-empty module is served; otherwise
/// the server reads again until it has read `WASM_ATTEMPTS` times.
pub open spec fn wasm_step_of(attempt: u32, read_len: Option<nat>) -> WasmStep {
    match read_len {
        Some(n) if n > 0 => WasmStep::Serve,
        _ => if attempt + 1 < WASM_ATTEMPTS {
            WasmStep::Retry
        } else {
            WasmStep::Unavailable
        },
    }
}

/// The dev server serves every non-empty module it reads, and reads the module
/// at most `WASM_ATTEMPTS` times: from the last read on it never reads again.
pub proof fn lemma_wasm_reads_bounded(attempt: u32, read_len: Option<nat>)
    ensures
        (read_len matches Some(n) && n > 0) ==> wasm_step_of(attempt, read_len) == WasmStep::Serve,
        attempt + 1 >= WASM_ATTEMPTS ==> wasm_step_of(attempt, read_len) != WasmStep::Retry,
{
}

/// Decides what follows one read of the module.
pub fn wasm_step(attempt: u32, content: Option<&[u8]>) -> (r: WasmStep)
    ensures
        r == wasm_step_of(
            attempt,
            match content {
                Some(c) => Some(c@.len()),
                None => None,
            },
        ),
{
    match content {
        Some(c) => {
            if c.len() > 0 {
                return WasmStep::Serve;
            }
        },
        None => {},
    }
    if attempt < WASM_ATTEMPTS - 1 {
        WasmStep::Retry
    } else {
        WasmStep::Unavailable
    }
}

} // verus!
