use vstd::prelude::*;

use crate::resources::{Device, ShaderModuleDescriptor};

verus! {

/// The byte at `k` of `code`, or zero past its end.
pub open spec fn padded_byte(code: Seq<u8>, k: int) -> u32 {
    if 0 <= k < code.len() {
        code[k] as u32
    } else {
        0
    }
}

/// The number of 32-bit words that hold `n` bytes, at least one.
pub open spec fn spec_word_count(n: nat) -> nat {
    let w = n / 4 + if n % 4 > 0 { 1nat } else { 0nat };
    if w == 0 { 1 } else { w }
}

/// Word `i` of the code: its four bytes from `4 * i` on, least significant
/// first, zero padded.
pub open spec fn code_word(code: Seq<u8>, i: int) -> u32 {
    (padded_byte(code, 4 * i) + padded_byte(code, 4 * i + 1) * 256 + padded_byte(code, 4 * i + 2) * 65536
        + padded_byte(code, 4 * i + 3) * 16777216) as u32
}

/// How a shader module is created.
#[derive(Clone, Debug)]
pub struct ShaderModulePlan {
    /// The size of the code in bytes.
    pub code_size: usize,
    pub code: Vec<u32>,
}

impl Device {
    /// Works out how to create a shader module: the code copied into 32-bit
    /// words, zero padded, as Vulkan takes it, with at least one word, and the
    /// size of the code in bytes. Bytes are assembled least significant first,
    /// the host order of the little-endian machines the library runs on.
    pub fn create_shader_module(&self, descriptor: &ShaderModuleDescriptor) -> (r: ShaderModulePlan)
        ensures
            r.code_size == descriptor.code@.len(),
            r.code@.len() == spec_word_count(descriptor.code@.len()),
            forall|i: int| 0 <= i < r.code@.len() ==> #[trigger] r.code@[i] == code_word(descriptor.code@, i),
    {
        let code: &[u8] = descriptor.code.as_slice();
        let byte_count = code.len();
        let word_extra: usize = if byte_count % 4 > 0 { 1 } else { 0 };
        let mut word_count: usize = byte_count / 4 + word_extra;
        if word_count < 1 {
            word_count = 1;
        }
        let mut words: Vec<u32> = Vec::new();
        let mut i: usize = 0;
        while i < word_count
            invariant
                byte_count == code@.len(),
                word_count == spec_word_count(code@.len()),
                i <= word_count,
                words@.len() == i,
                forall|j: int| 0 <= j < i ==> #[trigger] words@[j] == code_word(code@, j),
            decreases word_count - i,
        {
            let mut bytes: [u32; 4] = [0, 0, 0, 0];
            let mut k: usize = 0;
            while k < 4
                invariant
                    byte_count == code@.len(),
                    k <= 4,
                    i < word_count,
                    word_count == spec_word_count(code@.len()),
                    forall|m: int| 0 <= m < k ==> bytes@[m] == padded_byte(code@, 4 * i + m),
                    forall|m: int| 0 <= m < 4 ==> bytes@[m] <= 255,
                decreases 4 - k,
            {
                proof {
                    assert(4 * i + k < 4 * word_count + 4) by (nonlinear_arith)
                        requires
                            i < word_count,
                            k < 4,
                    ;
                }
                let at: usize = 4 * i + k;
                if at < byte_count {
                    bytes[k] = code[at] as u32;
                } else {
                    bytes[k] = 0;
                }
                k = k + 1;
            }
            let word = bytes[0] + bytes[1] * 256 + bytes[2] * 65536 + bytes[3] * 16777216;
            words.push(word);
            i = i + 1;
        }
        ShaderModulePlan { code_size: byte_count, code: words }
    }
}

} // verus!
