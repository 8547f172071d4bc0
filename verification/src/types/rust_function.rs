use vstd::prelude::*;
use vstd::string::*;
use crate::helpers::{generate_id, id_of};
use crate::localfs::file_path::{FilePath, FilePathView};
use crate::names::{clone_names, contains_name, merge_into, merge_names};
use crate::text::{clip, clip_line, join_strings, join_with};
use super::visibility::Visibility;

verus! {

/// A place in a source file: a line, counted from 1, and a column, counted
/// from 0.
#[derive(Debug, Clone, Copy, PartialEq, Eq, Structural)]
pub struct LineColumn {
    pub line: usize,
    pub column: usize,
}

/// What is read from the body of a function: the names that it calls or
/// instantiates, in the order in which they first occur, and where the body
/// stands in its file.
#[derive(Debug, PartialEq, Eq)]
pub struct FunctionBody {
    pub names: Vec<String>,
    pub start: LineColumn,
    pub end: LineColumn,
}

/// The mathematical content of a [`FunctionBody`].
pub struct FunctionBodyView {
    pub names: Seq<Seq<char>>,
    pub start: LineColumn,
    pub end: LineColumn,
}

impl View for FunctionBody {
    type V = FunctionBodyView;

    open spec fn view(&self) -> FunctionBodyView {
        FunctionBodyView { names: self.names.deep_view(), start: self.start, end: self.end }
    }
}

impl DeepView for FunctionBody {
    type V = FunctionBodyView;

    open spec fn deep_view(&self) -> FunctionBodyView {
        self@
    }
}

impl Clone for FunctionBody {
    fn clone(&self) -> (r: Self)
        ensures
            r@ == self@,
    {
        FunctionBody { names: clone_names(&self.names), start: self.start, end: self.end }
    }
}

impl FunctionBody {
    pub fn new(names: Vec<String>, start: LineColumn, end: LineColumn) -> (r: Self)
        ensures
            r@ == (FunctionBodyView { names: names.deep_view(), start, end }),
    {
        FunctionBody { names, start, end }
    }
}

/// A function, free or a method.
#[derive(Debug, PartialEq, Eq)]
pub struct RustFunction {
    pub id: String,
    pub name: String,
    pub visibility: Visibility,
    /// The parameters: name and type as written. A receiver has no type.
    pub inputs: Vec<(String, String)>,
    pub output: Option<String>,
    pub file_path: Option<FilePath>,
    pub block: Option<FunctionBody>,
    /// The names that the function is known to use. The names of the body
    /// join them when they are first asked for.
    pub instantiated_items: Vec<String>,
}

/// The mathematical content of a [`RustFunction`].
pub struct RustFunctionView {
    pub id: Seq<char>,
    pub name: Seq<char>,
    pub visibility: Visibility,
    pub inputs: Seq<(Seq<char>, Seq<char>)>,
    pub output: Option<Seq<char>>,
    pub file_path: Option<FilePathView>,
    pub block: Option<FunctionBodyView>,
    pub instantiated_items: Seq<Seq<char>>,
}

impl RustFunctionView {
    /// The names of the body, none where there is no body.
    pub open spec fn body_names(self) -> Seq<Seq<char>> {
        match self.block {
            Some(body) => body.names,
            None => Seq::empty(),
        }
    }

    /// The uses of the function in order: the names known so far, then
    /// those names of the body that are not yet among them.
    pub open spec fn uses_list(self) -> Seq<Seq<char>> {
        merge_names(self.instantiated_items, self.body_names())
    }

    /// Whether the function calls or instantiates `name`.
    pub open spec fn uses(self, name: Seq<char>) -> bool {
        self.instantiated_items.contains(name) || self.body_names().contains(name)
    }

    /// The function after its body has been read.
    pub open spec fn extracted(self) -> RustFunctionView {
        RustFunctionView { instantiated_items: self.uses_list(), ..self }
    }

    /// The signature as text: the visibility, `fn`, the name, the
    /// parameters in round brackets, and the output if there is one.
    pub open spec fn signature_text(self) -> Seq<char> {
        self.visibility.prefix() + "fn "@ + self.name + "("@ + join_with(
            Seq::new(self.inputs.len(), |i: int| input_text(self.inputs[i])),
            ", "@,
        ) + ")"@ + match self.output {
            Some(output) => "-> "@ + output,
            None => Seq::empty(),
        }
    }

    /// The body as text, cut out of `source`, the lines of the file of the
    /// function. A function that is in no file has no body text, and one
    /// without a body has a semicolon.
    pub open spec fn body_text(self, source: Option<Seq<Seq<char>>>) -> Seq<char> {
        match self.file_path {
            None => Seq::empty(),
            Some(_) => match self.block {
                None => ";"@,
                Some(body) => match source {
                    None => "Error extracting code"@,
                    Some(lines) => match extracted_code(lines, body.start, body.end) {
                        Some(code) => code + "\n"@,
                        None => "Error extracting code"@,
                    },
                },
            },
        }
    }

    /// The function as text: the signature, then the body.
    pub open spec fn block_text(self, source: Option<Seq<Seq<char>>>) -> Seq<char> {
        self.signature_text() + self.body_text(source)
    }
}

/// The receiver of a method as it is written: `self`, after `mut` if it is
/// mutable, after `&` if it is a reference, and after the lifetime of the
/// reference if one is written.
pub open spec fn receiver_text(
    reference: bool,
    lifetime: Option<Seq<char>>,
    mutable: bool,
) -> Seq<char> {
    (if reference {
        "&"@ + match lifetime {
            Some(l) => l + " "@,
            None => Seq::empty(),
        }
    } else {
        Seq::empty()
    }) + (if mutable {
        "mut "@
    } else {
        Seq::empty()
    }) + "self"@
}

/// The receiver of a method as it is written. `lifetime` counts only for a
/// reference.
pub fn receiver_str(reference: bool, lifetime: Option<&str>, mutable: bool) -> (text: String)
    ensures
        text@ == receiver_text(reference, lifetime.deep_view(), mutable),
{
    let mut self_arg = String::new();
    if reference {
        self_arg.append("&");
        match lifetime {
            Some(l) => {
                self_arg.append(l);
                self_arg.append(" ");
            },
            None => {},
        }
    }
    if mutable {
        self_arg.append("mut ");
    }
    self_arg.append("self");
    self_arg
}

/// A parameter as text: the name, and after a colon the type, if one is
/// written.
pub open spec fn input_text(input: (Seq<char>, Seq<char>)) -> Seq<char> {
    if input.1.len() == 0 {
        input.0
    } else {
        input.0 + ": "@ + input.1
    }
}

/// What is cut out of the line at place `idx` of `count` lines: of the
/// first line what follows the start column, of the last line what comes
/// before the end column, and all of a line in between.
pub open spec fn extracted_line(
    line: Seq<char>,
    idx: int,
    count: int,
    start_column: int,
    end_column: int,
) -> Seq<char> {
    if line.len() == 0 {
        Seq::empty()
    } else if idx == 0 && idx == count - 1 {
        clip(line, start_column, end_column)
    } else if idx == 0 {
        clip(line, start_column, line.len() as int)
    } else if idx == count - 1 {
        clip(line, 0, end_column)
    } else {
        line
    }
}

/// The text between `start` and `end`, cut out of `lines` and joined by
/// line feeds; nothing if the two places do not lie in `lines` in this
/// order.
pub open spec fn extracted_code(lines: Seq<Seq<char>>, start: LineColumn, end: LineColumn) -> Option<
    Seq<char>,
> {
    if 1 <= start.line <= end.line <= lines.len() {
        let count = end.line - start.line + 1;
        Some(
            join_with(
                Seq::new(
                    count as nat,
                    |k: int|
                        extracted_line(
                            lines[start.line - 1 + k],
                            k,
                            count,
                            start.column as int,
                            end.column as int,
                        ),
                ),
                "\n"@,
            ),
        )
    } else {
        None
    }
}

/// Cuts the text between `start` and `end` out of the lines of a file.
pub fn extract_code_from_block(start: LineColumn, end: LineColumn, lines: &Vec<String>) -> (r:
    Option<String>)
    ensures
        r.deep_view() == extracted_code(lines.deep_view(), start, end),
{
    if start.line < 1 || end.line < start.line || end.line > lines.len() {
        return None;
    }
    let count = end.line - start.line + 1;
    let ghost all = lines.deep_view();
    let mut pieces: Vec<String> = Vec::new();
    let mut idx: usize = 0;
    while idx < count
        invariant
            idx <= count,
            count == end.line - start.line + 1,
            1 <= start.line <= end.line <= lines.len(),
            all == lines.deep_view(),
            pieces.deep_view() =~= Seq::new(
                idx as nat,
                |k: int|
                    extracted_line(
                        all[start.line - 1 + k],
                        k,
                        count as int,
                        start.column as int,
                        end.column as int,
                    ),
            ),
        decreases count - idx,
    {
        let line = lines[start.line - 1 + idx].as_str();
        let n = line.unicode_len();
        let is_first_line = idx == 0;
        let is_last_line = idx == count - 1;
        let piece = if n == 0 {
            String::new()
        } else if is_first_line && is_last_line {
            clip_line(line, start.column, end.column)
        } else if is_first_line {
            clip_line(line, start.column, n)
        } else if is_last_line {
            clip_line(line, 0, end.column)
        } else {
            line.substring_char(0, n).to_owned()
        };
        assert(piece@ == extracted_line(
            line@,
            idx as int,
            count as int,
            start.column as int,
            end.column as int,
        ));
        let ghost before = pieces.deep_view();
        pieces.push(piece);
        assert(pieces.deep_view() =~= before.push(piece@));
        idx += 1;
    }
    Some(join_strings(&pieces, "\n"))
}

impl View for RustFunction {
    type V = RustFunctionView;

    open spec fn view(&self) -> RustFunctionView {
        RustFunctionView {
            id: self.id@,
            name: self.name@,
            visibility: self.visibility,
            inputs: self.inputs.deep_view(),
            output: self.output.deep_view(),
            file_path: self.file_path.deep_view(),
            block: self.block.deep_view(),
            instantiated_items: self.instantiated_items.deep_view(),
        }
    }
}

impl DeepView for RustFunction {
    type V = RustFunctionView;

    open spec fn deep_view(&self) -> RustFunctionView {
        self@
    }
}

/// A copy of a list of pairs of strings.
pub fn clone_pairs(pairs: &Vec<(String, String)>) -> (r: Vec<(String, String)>)
    ensures
        r.deep_view() == pairs.deep_view(),
{
    let mut out: Vec<(String, String)> = Vec::new();
    let mut i: usize = 0;
    while i < pairs.len()
        invariant
            i <= pairs.len(),
            out.len() == i,
            forall|j: int| 0 <= j < i ==> out@[j].deep_view() == pairs@[j].deep_view(),
        decreases pairs.len() - i,
    {
        out.push((pairs[i].0.clone(), pairs[i].1.clone()));
        i += 1;
    }
    out
}

impl Clone for RustFunction {
    fn clone(&self) -> (r: Self)
        ensures
            r@ == self@,
    {
        RustFunction {
            id: self.id.clone(),
            name: self.name.clone(),
            visibility: self.visibility,
            inputs: clone_pairs(&self.inputs),
            output: match &self.output {
                Some(o) => Some(o.clone()),
                None => None,
            },
            file_path: match &self.file_path {
                Some(p) => Some(p.clone()),
                None => None,
            },
            block: match &self.block {
                Some(b) => Some(b.clone()),
                None => None,
            },
            instantiated_items: clone_names(&self.instantiated_items),
        }
    }
}

/// A copy of a list of functions.
pub fn clone_functions(functions: &Vec<RustFunction>) -> (r: Vec<RustFunction>)
    ensures
        r.deep_view() == functions.deep_view(),
{
    let mut out: Vec<RustFunction> = Vec::new();
    let mut i: usize = 0;
    while i < functions.len()
        invariant
            i <= functions.len(),
            out.len() == i,
            forall|j: int| 0 <= j < i ==> out@[j]@ == functions@[j]@,
        decreases functions.len() - i,
    {
        out.push(functions[i].clone());
        i += 1;
    }
    out
}

impl RustFunction {
    /// A function of which only the name is known.
    pub fn new(visibility: Visibility, name: &str) -> (r: Self)
        ensures
            r@ == (RustFunctionView {
                id: id_of(name@),
                name: name@,
                visibility,
                inputs: Seq::empty(),
                output: None,
                file_path: None,
                block: None,
                instantiated_items: Seq::empty(),
            }),
    {
        let r = RustFunction {
            id: generate_id(name),
            name: name.to_owned(),
            visibility,
            inputs: Vec::new(),
            output: None,
            file_path: None,
            block: None,
            instantiated_items: Vec::new(),
        };
        assert(r.inputs.deep_view() =~= Seq::empty());
        assert(r.instantiated_items.deep_view() =~= Seq::empty());
        r
    }

    /// A function as it is declared. Its identifier follows from its name,
    /// and its body is not read yet.
    pub fn new_with_data(
        name: &str,
        visibility: Visibility,
        inputs: Vec<(String, String)>,
        output: Option<String>,
        file_path: Option<FilePath>,
        block: Option<FunctionBody>,
    ) -> (r: Self)
        ensures
            r@ == (RustFunctionView {
                id: id_of(name@),
                name: name@,
                visibility,
                inputs: inputs.deep_view(),
                output: output.deep_view(),
                file_path: file_path.deep_view(),
                block: block.deep_view(),
                instantiated_items: Seq::empty(),
            }),
    {
        let r = RustFunction {
            id: generate_id(name),
            name: name.to_owned(),
            visibility,
            inputs,
            output,
            file_path,
            block,
            instantiated_items: Vec::new(),
        };
        assert(r.instantiated_items.deep_view() =~= Seq::empty());
        r
    }

    pub fn id(&self) -> (r: &str)
        ensures
            r@ == self@.id,
    {
        self.id.as_str()
    }

    pub fn name(&self) -> (r: &str)
        ensures
            r@ == self@.name,
    {
        self.name.as_str()
    }

    pub fn visibility(&self) -> (r: &Visibility)
        ensures
            *r == self@.visibility,
    {
        &self.visibility
    }

    /// The names that the function is known to use so far.
    pub fn instantiated_items(&self) -> (r: &Vec<String>)
        ensures
            r.deep_view() == self@.instantiated_items,
    {
        &self.instantiated_items
    }

    /// Reads the body: the names that it calls or instantiates join the
    /// uses of the function. Reading it again changes nothing.
    pub fn extract_function_body(&mut self)
        ensures
            final(self)@ == old(self)@.extracted(),
            old(self)@.instantiated_items.no_duplicates() ==> final(self)@.instantiated_items.no_duplicates(),
    {
        proof {
            if self@.instantiated_items.no_duplicates() {
                crate::names::lemma_merge_names_no_duplicates(
                    self@.instantiated_items,
                    self@.body_names(),
                );
            }
        }
        match &self.block {
            Some(body) => {
                merge_into(&mut self.instantiated_items, &body.names);
            },
            None => {},
        }
    }

    /// The signature as text.
    pub fn signature_str(&self) -> (text: String)
        ensures
            text@ == self@.signature_text(),
    {
        let mut inputs: Vec<String> = Vec::new();
        let mut i: usize = 0;
        while i < self.inputs.len()
            invariant
                i <= self.inputs.len(),
                inputs.deep_view() =~= Seq::new(
                    i as nat,
                    |k: int| input_text(self.inputs.deep_view()[k]),
                ),
            decreases self.inputs.len() - i,
        {
            let name = self.inputs[i].0.as_str();
            let typ = self.inputs[i].1.as_str();
            let mut input = name.to_owned();
            if typ.unicode_len() > 0 {
                input.append(": ");
                input.append(typ);
            }
            let ghost before = inputs.deep_view();
            inputs.push(input);
            assert(inputs.deep_view() =~= before.push(input@));
            i += 1;
        }
        let mut signature = self.visibility.prefix_str();
        signature.append("fn ");
        signature.append(self.name.as_str());
        signature.append("(");
        signature.append(join_strings(&inputs, ", ").as_str());
        signature.append(")");
        match &self.output {
            Some(output) => {
                signature.append("-> ");
                signature.append(output.as_str());
            },
            None => {},
        }
        signature
    }

    /// The body as text, cut out of `source`, the lines of the file of the
    /// function.
    pub fn body_str(&self, source: Option<&Vec<String>>) -> (text: String)
        ensures
            text@ == self@.body_text(source.deep_view()),
    {
        if self.file_path.is_none() {
            return String::new();
        }
        match &self.block {
            None => ";".to_owned(),
            Some(body) => {
                let code = match source {
                    Some(lines) => extract_code_from_block(body.start, body.end, lines),
                    None => None,
                };
                match code {
                    Some(code) => {
                        let mut text = code;
                        text.append("\n");
                        text
                    },
                    None => "Error extracting code".to_owned(),
                }
            },
        }
    }

    /// The function as text: the signature, then the body.
    pub fn function_block_str(&self, source: Option<&Vec<String>>) -> (text: String)
        ensures
            text@ == self@.block_text(source.deep_view()),
    {
        let mut full_function = self.signature_str();
        full_function.append(self.body_str(source).as_str());
        full_function
    }

    /// The uses of the function in order, whether or not its body has been
    /// read.
    pub fn uses(&self) -> (r: Vec<String>)
        ensures
            r.deep_view() == self@.uses_list(),
    {
        let mut names = clone_names(&self.instantiated_items);
        match &self.block {
            Some(body) => {
                merge_into(&mut names, &body.names);
            },
            None => {},
        }
        names
    }

    /// Whether the function calls or instantiates `name`, in the body or
    /// among the names known so far.
    pub fn uses_name(&self, name: &str) -> (r: bool)
        ensures
            r == self@.uses(name@),
    {
        if contains_name(&self.instantiated_items, name) {
            return true;
        }
        match &self.block {
            Some(body) => contains_name(&body.names, name),
            None => false,
        }
    }
}

/// A name is among the uses of a function exactly if it is in the list of
/// its uses.
pub proof fn lemma_uses_list_contains(f: RustFunctionView, name: Seq<char>)
    ensures
        f.uses_list().contains(name) <==> f.uses(name),
{
    crate::names::lemma_merge_names_contains(f.instantiated_items, f.body_names(), name);
}

/// Reading the body keeps the uses, and reading it twice is reading it once.
pub proof fn lemma_extracted_idempotent(f: RustFunctionView)
    ensures
        f.extracted().extracted() == f.extracted(),
        f.extracted().uses_list() == f.uses_list(),
        forall|name: Seq<char>| f.extracted().uses(name) <==> f.uses(name),
{
    crate::names::lemma_merge_names_idempotent(f.instantiated_items, f.body_names());
    assert forall|name: Seq<char>| f.extracted().uses(name) <==> f.uses(name) by {
        crate::names::lemma_merge_names_contains(f.instantiated_items, f.body_names(), name);
    }
}

} // verus!
