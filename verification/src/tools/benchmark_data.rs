//! Synthetic Rust sources for benchmarking the analyser.

use vstd::prelude::*;
use crate::text::{owned, push_str, push_decimal, decimal};

verus! {

/// The `use` lines of a generated module: the three modules after it,
/// wrapping around, each line naming the module's struct.
pub open spec fn import_lines(file_index: nat, total_files: nat, count: nat) -> Seq<char>
    decreases count,
{
    if count == 0 {
        seq![]
    } else {
        let k = ((file_index + count) % total_files) as nat;
        import_lines(file_index, total_files, (count - 1) as nat)
            + "use crate::module_"@ + decimal(k) + "::Struct"@ + decimal(k) + ";\n"@
    }
}

/// The field lines of a generated struct.
pub open spec fn field_lines(count: nat) -> Seq<char>
    decreases count,
{
    if count == 0 {
        seq![]
    } else {
        field_lines((count - 1) as nat) + "    field_"@ + decimal((count - 1) as nat) + ": u32,\n"@
    }
}

/// The method definitions of a generated impl block.
pub open spec fn method_lines(count: nat) -> Seq<char>
    decreases count,
{
    if count == 0 {
        seq![]
    } else {
        let i = (count - 1) as nat;
        method_lines(i)
            + "    pub fn func_"@ + decimal(i) + "(&self, arg: u32) -> u32 {\n"@
            + "        self.field_"@ + decimal(i) + " + arg\n"@
            + "    }\n"@
    }
}

/// A generated module: a header, three imports, a struct with
/// `complexity` fields and an impl block with one method per field.
pub open spec fn complex_rust_code(file_index: nat, complexity: nat, total_files: nat) -> Seq<char> {
    "// Module "@ + decimal(file_index) + "\n\n"@
        + import_lines(file_index, total_files, 3) + "\n"@
        + "pub struct Struct"@ + decimal(file_index) + " {\n"@ + field_lines(complexity) + "}\n\n"@
        + "impl Struct"@ + decimal(file_index) + " {\n"@ + method_lines(complexity) + "}\n"@
}

/// Generates the source of one benchmark module.
pub fn generate_complex_rust_code(file_index: usize, complexity: usize, total_files: usize) -> (code: String)
    requires
        total_files > 0,
        file_index + 3 <= usize::MAX,
    ensures
        code@ == complex_rust_code(file_index as nat, complexity as nat, total_files as nat),
{
    let mut code = owned("// Module ");
    push_decimal(&mut code, file_index as u64);
    push_str(&mut code, "\n\n");
    let ghost head = code@;
    let mut j: usize = 1;
    while j <= 3
        invariant
            1 <= j <= 4,
            total_files > 0,
            file_index + 3 <= usize::MAX,
            code@ == head + import_lines(file_index as nat, total_files as nat, (j - 1) as nat),
        decreases 4 - j,
    {
        let k = (file_index + j) % total_files;
        push_str(&mut code, "use crate::module_");
        push_decimal(&mut code, k as u64);
        push_str(&mut code, "::Struct");
        push_decimal(&mut code, k as u64);
        push_str(&mut code, ";\n");
        proof {
            assert(import_lines(file_index as nat, total_files as nat, j as nat)
                == import_lines(file_index as nat, total_files as nat, (j - 1) as nat)
                    + "use crate::module_"@ + decimal(k as nat) + "::Struct"@ + decimal(k as nat) + ";\n"@);
        }
        j = j + 1;
    }
    push_str(&mut code, "\n");
    push_str(&mut code, "pub struct Struct");
    push_decimal(&mut code, file_index as u64);
    push_str(&mut code, " {\n");
    let ghost before_fields = code@;
    let mut i: usize = 0;
    while i < complexity
        invariant
            i <= complexity,
            code@ == before_fields + field_lines(i as nat),
        decreases complexity - i,
    {
        push_str(&mut code, "    field_");
        push_decimal(&mut code, i as u64);
        push_str(&mut code, ": u32,\n");
        i = i + 1;
    }
    push_str(&mut code, "}\n\n");
    push_str(&mut code, "impl Struct");
    push_decimal(&mut code, file_index as u64);
    push_str(&mut code, " {\n");
    let ghost before_methods = code@;
    let mut m: usize = 0;
    while m < complexity
        invariant
            m <= complexity,
            code@ == before_methods + method_lines(m as nat),
        decreases complexity - m,
    {
        push_str(&mut code, "    pub fn func_");
        push_decimal(&mut code, m as u64);
        push_str(&mut code, "(&self, arg: u32) -> u32 {\n");
        push_str(&mut code, "        self.field_");
        push_decimal(&mut code, m as u64);
        push_str(&mut code, " + arg\n");
        push_str(&mut code, "    }\n");
        m = m + 1;
    }
    push_str(&mut code, "}\n");
    code
}

} // verus!
