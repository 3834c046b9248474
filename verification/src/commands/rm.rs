//! The `rm` command: refuses to remove anything — unless it is asked for
//! the filesystem root with a force flag, in which case it "succeeds": the
//! screen fills with printable noise and the session is expected to crash.

use vstd::prelude::*;
use vstd::string::*;

use rand::distributions::Uniform;
use rand::prelude::Distribution;
use rand::rngs::SmallRng;
use rand::SeedableRng;

use crate::paint::PaintOp;
use crate::text::chars_to_string;

verus! {

/// Whether some argument (past the command name) is the filesystem root.
pub open spec fn has_root_dest(tokens: Seq<Seq<char>>) -> bool {
    exists|i: int| 1 <= i < tokens.len() && tokens[i] == "/"@
}

/// Whether some argument (past the command name) is a recursive-force flag.
pub open spec fn has_force_flags(tokens: Seq<Seq<char>>) -> bool {
    exists|i: int| 1 <= i < tokens.len() && (tokens[i] == "-rf"@ || tokens[i] == "-fr"@)
}

/// The doom condition: exactly `rm`, one force flag and the root.
pub open spec fn rm_dooms(tokens: Seq<Seq<char>>) -> bool {
    tokens.len() == 3 && has_force_flags(tokens) && has_root_dest(tokens)
}

/// The complaint written for every other invocation.
pub open spec fn rm_refusal_message() -> Seq<char> {
    "cannot remove: No such file or directory\n"@
}

/// Relies on rand's `SmallRng` with a `Uniform` distribution over the
/// half-open byte range `0x20..0x7F`: every sampled byte lies in that range.
#[verifier::external_body]
fn sample_doom_bytes(count: usize) -> (r: Vec<u8>)
    ensures
        r@.len() == count,
        forall|i: int| 0 <= i < r@.len() ==> 0x20 <= #[trigger] r@[i] < 0x7F,
{
    let mut rng = SmallRng::from_entropy();
    let range = Uniform::from(0x20u8..0x7F);
    range.sample_iter(&mut rng).take(count).collect()
}

/// Handler of the `rm` command.
pub struct Rm;

impl Rm {
    /// Decide what `rm` does with the given tokens on a `cols` x `rows`
    /// terminal. The returned flag says whether the invocation hit the doom
    /// condition; the caller is then expected to crash the session after
    /// painting, as deleting the root filesystem deserves. Every other
    /// invocation is refused with one complaint and no mode switch.
    pub fn execute(&self, tokens: &Vec<String>, cols: usize, rows: usize) -> (r: (
        Vec<PaintOp>,
        bool,
    ))
        requires
            cols * rows <= usize::MAX,
        ensures
            r.1 == rm_dooms(tokens@.map_values(|t: String| t@)),
            !r.1 ==> r.0@.len() == 1 && (match r.0@[0] {
                PaintOp::Write(m) => m@ == rm_refusal_message(),
                _ => false,
            }),
            r.1 ==> r.0@.len() == 2 && r.0@[0] == PaintOp::ClearScreen && (match r.0@[1] {
                PaintOp::Write(s) => s@.len() == cols * rows && (forall|i: int|
                    0 <= i < s@.len() ==> 0x20 <= (#[trigger] s@[i]) as u32 && (s@[i] as u32)
                        < 0x7F),
                _ => false,
            }),
    {
        let ghost tviews = tokens@.map_values(|t: String| t@);
        let n = tokens.len();
        let mut has_dest = false;
        let mut has_flags = false;
        let mut i: usize = 1;
        while i < n
            invariant
                1 <= i <= n || (n == 0 && i == 1),
                n == tviews.len(),
                tviews.len() == tokens@.len(),
                forall|j: int| 0 <= j < tviews.len() ==> tviews[j] == tokens@[j]@,
                has_dest == exists|j: int| 1 <= j < i && tviews[j] == "/"@,
                has_flags == exists|j: int|
                    1 <= j < i && (tviews[j] == "-rf"@ || tviews[j] == "-fr"@),
            decreases n - i,
        {
            let ghost before_dest = has_dest;
            let ghost before_flags = has_flags;
            if crate::text::str_eq(tokens[i].as_str(), "/") {
                assert(tviews[i as int] == "/"@);
                has_dest = true;
            } else {
                proof {
                    if !before_dest {
                        assert(!(exists|j: int| 1 <= j < i + 1 && tviews[j] == "/"@)) by {
                            if exists|j: int| 1 <= j < i + 1 && tviews[j] == "/"@ {
                                let j = choose|j: int| 1 <= j < i + 1 && tviews[j] == "/"@;
                                assert(j < i);
                            }
                        }
                    }
                }
            }
            let is_rf = crate::text::str_eq(tokens[i].as_str(), "-rf");
            let is_fr = crate::text::str_eq(tokens[i].as_str(), "-fr");
            if is_rf || is_fr {
                assert(tviews[i as int] == "-rf"@ || tviews[i as int] == "-fr"@);
                has_flags = true;
            } else {
                proof {
                    if !before_flags {
                        assert(!(exists|j: int|
                            1 <= j < i + 1 && (tviews[j] == "-rf"@ || tviews[j] == "-fr"@))) by {
                            if exists|j: int|
                                1 <= j < i + 1 && (tviews[j] == "-rf"@ || tviews[j] == "-fr"@) {
                                let j = choose|j: int|
                                    1 <= j < i + 1 && (tviews[j] == "-rf"@ || tviews[j]
                                        == "-fr"@);
                                assert(j < i);
                            }
                        }
                    }
                }
            }
            i += 1;
        }
        proof {
            if n == 0 {
                assert(!has_root_dest(tviews));
                assert(!has_force_flags(tviews));
            }
        }
        if n == 3 && has_flags && has_dest {
            let count = cols * rows;
            let bytes = sample_doom_bytes(count);
            let mut noise: Vec<char> = Vec::new();
            let mut k: usize = 0;
            while k < count
                invariant
                    k <= count,
                    bytes@.len() == count,
                    noise@.len() == k,
                    forall|j: int| 0 <= j < bytes@.len() ==> 0x20 <= #[trigger] bytes@[j] < 0x7F,
                    forall|j: int|
                        0 <= j < k ==> 0x20 <= (#[trigger] noise@[j]) as u32 && (noise@[j] as u32)
                            < 0x7F,
                decreases count - k,
            {
                noise.push(bytes[k] as char);
                k += 1;
            }
            let mut ops: Vec<PaintOp> = Vec::new();
            ops.push(PaintOp::ClearScreen);
            ops.push(PaintOp::Write(chars_to_string(&noise)));
            (ops, true)
        } else {
            let mut ops: Vec<PaintOp> = Vec::new();
            ops.push(PaintOp::Write(String::from_str(
                "cannot remove: No such file or directory\n",
            )));
            (ops, false)
        }
    }
}

} // verus!
