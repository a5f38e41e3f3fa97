//! Lua annotation text for the scripting API: each documented function, method, class and
//! module of the engine becomes a small block of `---@` comments and a declaration.
use vstd::prelude::*;
use crate::text::{chars_of, lemma_newline_index, lines_from, newline_index, push_trimmed, strip_cr, text_lines, trim};

verus! {

/// A file of annotation text: its name inside the output folder, and its contents.
pub struct OutFile {
    pub path: String,
    pub data: String,
}

/// The Lua type of a documented value.
pub enum ValueKind {
    String,
    Number,
    Boolean,
    Function,
    Table,
    Vector2,
    Vector3,
    Box2,
    Box3,
    Camera2D,
    Camera3D,
    Color,
    UserData { name: String },
}

impl ValueKind {
    /// The annotation word of a kind.
    pub open spec fn text_spec(&self) -> Seq<char> {
        match self {
            ValueKind::String => "string"@,
            ValueKind::Number => "number"@,
            ValueKind::Boolean => "boolean"@,
            ValueKind::Function => "function"@,
            ValueKind::Table => "table"@,
            ValueKind::Vector2 => "Vector2"@,
            ValueKind::Vector3 => "Vector3"@,
            ValueKind::Box2 => "Box2"@,
            ValueKind::Box3 => "Box3"@,
            ValueKind::Camera2D => "Camera2D"@,
            ValueKind::Camera3D => "Camera3D"@,
            ValueKind::Color => "Color"@,
            ValueKind::UserData { name } => name@,
        }
    }

    /// The annotation word of a kind, as its textual form prints it.
    pub fn fmt(&self) -> (text: String)
        ensures
            text@ == self.text_spec(),
    {
        match self {
            ValueKind::String => String::from_str("string"),
            ValueKind::Number => String::from_str("number"),
            ValueKind::Boolean => String::from_str("boolean"),
            ValueKind::Function => String::from_str("function"),
            ValueKind::Table => String::from_str("table"),
            ValueKind::Vector2 => String::from_str("Vector2"),
            ValueKind::Vector3 => String::from_str("Vector3"),
            ValueKind::Box2 => String::from_str("Box2"),
            ValueKind::Box3 => String::from_str("Box3"),
            ValueKind::Camera2D => String::from_str("Camera2D"),
            ValueKind::Camera3D => String::from_str("Camera3D"),
            ValueKind::Color => String::from_str("Color"),
            ValueKind::UserData { name } => name.clone(),
        }
    }
}

/// A documented parameter or result.
pub struct Value {
    pub name: String,
    pub info: String,
    pub kind: ValueKind,
    pub optional: Option<bool>,
}

impl Value {
    pub open spec fn is_optional(&self) -> bool {
        self.optional == Some(true)
    }

    /// The name as annotations write it: with a `?` when the value is optional.
    pub open spec fn name_spec(&self) -> Seq<char> {
        if self.is_optional() {
            self.name@ + "?"@
        } else {
            self.name@
        }
    }

    /// The kind as annotations write it: with `|nil` when the value is optional.
    pub open spec fn kind_spec(&self) -> Seq<char> {
        if self.is_optional() {
            self.kind.text_spec() + "|nil"@
        } else {
            self.kind.text_spec()
        }
    }

    pub fn get_name(&self) -> (name: String)
        ensures
            name@ == self.name_spec(),
    {
        if let Some(optional) = self.optional {
            if optional {
                let mut name = self.name.clone();
                name.append("?");
                return name;
            }
        }
        self.name.clone()
    }

    pub fn get_kind(&self) -> (kind: String)
        ensures
            kind@ == self.kind_spec(),
    {
        if let Some(optional) = self.optional {
            if optional {
                let mut kind = self.kind.fmt();
                kind.append("|nil");
                return kind;
            }
        }
        self.kind.fmt()
    }
}

//================================================================

/// One `---` comment line per line of `info`, each trimmed.
pub open spec fn doc_block(lines: Seq<Seq<char>>) -> Seq<char>
    decreases lines.len(),
{
    if lines.len() == 0 {
        Seq::empty()
    } else {
        "---"@ + trim(lines[0]) + "\n"@ + doc_block(lines.drop_first())
    }
}

/// The comment block that documents a text.
pub open spec fn info_text(info: Seq<char>) -> Seq<char> {
    doc_block(text_lines(info))
}

proof fn lemma_doc_block_cons(line: Seq<char>, rest: Seq<Seq<char>>)
    ensures
        doc_block(seq![line] + rest) == "---"@ + trim(line) + "\n"@ + doc_block(rest),
{
    assert((seq![line] + rest).drop_first() =~= rest);
    assert((seq![line] + rest)[0] == line);
}

/// Appends the comment block of `info` to `out`.
pub fn push_info(out: &mut String, info: &str)
    ensures
        final(out)@ == old(out)@ + info_text(info@),
{
    let cs = chars_of(info);
    let n = cs.len();
    let mut start: usize = 0;
    while start < n
        invariant
            cs@ == info@,
            n == cs.len(),
            start <= n,
            old(out)@ + info_text(info@) == out@ + doc_block(lines_from(cs@, start as int)),
        decreases n - start,
    {
        let mut k = start;
        while k < n && cs[k] != '\n'
            invariant
                start <= k <= n,
                n == cs.len(),
                newline_index(cs@, start as int) == newline_index(cs@, k as int),
            decreases n - k,
        {
            k = k + 1;
        }
        proof {
            lemma_newline_index(cs@, start as int);
        }
        let ghost before = out@;
        out.append("---");
        if k < n {
            let hi = if k > start && cs[k - 1] == '\r' {
                k - 1
            } else {
                k
            };
            assert(cs@.subrange(start as int, hi as int) == strip_cr(
                cs@.subrange(start as int, k as int),
            )) by {
                if k > start && cs@[k - 1] == '\r' {
                    assert(cs@.subrange(start as int, k as int).drop_last() =~= cs@.subrange(
                        start as int,
                        hi as int,
                    ));
                }
            }
            push_trimmed(out, &cs, start, hi);
            out.append("\n");
            proof {
                lemma_doc_block_cons(
                    strip_cr(cs@.subrange(start as int, k as int)),
                    lines_from(cs@, k + 1),
                );
                assert(out@ == before + ("---"@ + trim(strip_cr(cs@.subrange(start as int, k as int)))
                    + "\n"@));
            }
            start = k + 1;
        } else {
            push_trimmed(out, &cs, start, n);
            out.append("\n");
            proof {
                lemma_doc_block_cons(cs@.subrange(start as int, n as int), Seq::empty());
                assert(lines_from(cs@, n as int) =~= Seq::<Seq<char>>::empty());
                assert(seq![cs@.subrange(start as int, n as int)] + Seq::<Seq<char>>::empty()
                    =~= seq![cs@.subrange(start as int, n as int)]);
            }
            start = n;
        }
    }
}

//================================================================

/// The `---@param` line of a parameter.
pub open spec fn param_line(v: Value) -> Seq<char> {
    "---@param "@ + v.name_spec() + " "@ + v.kind.text_spec() + " # "@ + v.info@ + "\n"@
}

/// The `---@param` lines of a parameter list, in order.
pub open spec fn param_lines(ps: Seq<Value>) -> Seq<char>
    decreases ps.len(),
{
    if ps.len() == 0 {
        Seq::empty()
    } else {
        param_lines(ps.drop_last()) + param_line(ps.last())
    }
}

/// The parameter names, joined by `", "`.
pub open spec fn param_names(ps: Seq<Value>) -> Seq<char>
    decreases ps.len(),
{
    if ps.len() == 0 {
        Seq::empty()
    } else if ps.len() == 1 {
        ps[0].name@
    } else {
        param_names(ps.drop_last()) + ", "@ + ps.last().name@
    }
}

/// The `---@return` line of a result.
pub open spec fn result_line(v: Value) -> Seq<char> {
    "---@return "@ + v.kind_spec() + " "@ + v.name@ + " # "@ + v.info@ + "\n"@
}

/// The `---@return` lines of a result list, in order.
pub open spec fn result_lines(rs: Seq<Value>) -> Seq<char>
    decreases rs.len(),
{
    if rs.len() == 0 {
        Seq::empty()
    } else {
        result_lines(rs.drop_last()) + result_line(rs.last())
    }
}

/// The names joined so far after `i` of the parameters `ps` were written.
pub open spec fn param_names_prefix(ps: Seq<Value>, i: int) -> Seq<char> {
    if i == 0 {
        Seq::empty()
    } else if i == ps.len() {
        param_names(ps)
    } else {
        param_names(ps.take(i)) + ", "@
    }
}

/// A documented function or method of the scripting API.
pub struct Function {
    pub from: String,
    pub info: String,
    pub parameter: Vec<Value>,
    pub result: Vec<Value>,
}

impl Function {
    /// The table that owns the function: the class itself for a method, or its table under
    /// `laravox` for a function.
    pub open spec fn owner_spec(&self, method: bool) -> Seq<char> {
        if method {
            self.from@
        } else {
            "laravox."@ + self.from@
        }
    }

    pub open spec fn path_spec(&self, name: Seq<char>, method: bool) -> Seq<char> {
        "function_"@ + self.owner_spec(method) + "."@ + name
    }

    pub open spec fn data_spec(&self, name: Seq<char>, method: bool) -> Seq<char> {
        info_text(self.info@) + param_lines(self.parameter@) + result_lines(self.result@)
            + "function "@ + self.owner_spec(method) + (if method {
            ":"@
        } else {
            "."@
        }) + name + "("@ + param_names(self.parameter@) + ") end\n"@
    }

    /// The annotation file of the function `name`: its comment block, one `---@param` line
    /// per parameter, one `---@return` line per result, and an empty declaration.
    pub fn write(&self, name: &str, method: bool) -> (out: OutFile)
        ensures
            out.path@ == self.path_spec(name@, method),
            out.data@ == self.data_spec(name@, method),
    {
        let mut buffer = String::new();
        push_info(&mut buffer, self.info.as_str());
        let ghost info_part = buffer@;

        let mut buffer_parameter = String::new();
        let n = self.parameter.len();
        let mut i: usize = 0;
        while i < n
            invariant
                n == self.parameter.len(),
                i <= n,
                info_part == info_text(self.info@),
                buffer@ == info_part + param_lines(self.parameter@.take(i as int)),
                buffer_parameter@ == param_names_prefix(self.parameter@, i as int),
            decreases n - i,
        {
            let parameter = &self.parameter[i];
            let ghost before = buffer@;
            buffer.append("---@param ");
            let name_text = parameter.get_name();
            buffer.append(name_text.as_str());
            buffer.append(" ");
            let kind_text = parameter.kind.fmt();
            buffer.append(kind_text.as_str());
            buffer.append(" # ");
            buffer.append(parameter.info.as_str());
            buffer.append("\n");
            proof {
                let ps = self.parameter@;
                assert(ps.take(i + 1).drop_last() =~= ps.take(i as int));
                assert(ps.take(i + 1).last() == ps[i as int]);
                assert(buffer@ =~= before + param_line(ps[i as int]));
            }

            let ghost names_before = buffer_parameter@;
            if i == n - 1 {
                buffer_parameter.append(parameter.name.as_str());
            } else {
                buffer_parameter.append(parameter.name.as_str());
                buffer_parameter.append(", ");
            }
            proof {
                let ps = self.parameter@;
                assert(ps.take(i + 1).drop_last() =~= ps.take(i as int));
                assert(ps.take(i + 1).last() == ps[i as int]);
                if i + 1 == n {
                    assert(ps.take(i + 1) =~= ps);
                }
                if i == 0 {
                    assert(param_names(ps.take(1)) == ps[0].name@);
                }
            }
            i = i + 1;
        }
        proof {
            assert(self.parameter@.take(n as int) =~= self.parameter@);
        }
        let ghost params_part = buffer@;

        let m = self.result.len();
        let mut j: usize = 0;
        while j < m
            invariant
                m == self.result.len(),
                j <= m,
                buffer@ == params_part + result_lines(self.result@.take(j as int)),
            decreases m - j,
        {
            let result = &self.result[j];
            let ghost before = buffer@;
            buffer.append("---@return ");
            let kind_text = result.get_kind();
            buffer.append(kind_text.as_str());
            buffer.append(" ");
            buffer.append(result.name.as_str());
            buffer.append(" # ");
            buffer.append(result.info.as_str());
            buffer.append("\n");
            proof {
                let rs = self.result@;
                assert(rs.take(j + 1).drop_last() =~= rs.take(j as int));
                assert(rs.take(j + 1).last() == rs[j as int]);
                assert(buffer@ =~= before + result_line(rs[j as int]));
            }
            j = j + 1;
        }
        proof {
            assert(self.result@.take(m as int) =~= self.result@);
        }

        let from = if method {
            self.from.clone()
        } else {
            let mut from = String::from_str("laravox.");
            from.append(self.from.as_str());
            from
        };
        let separator = if method {
            ":"
        } else {
            "."
        };
        let ghost body = buffer@;
        buffer.append("function ");
        buffer.append(from.as_str());
        buffer.append(separator);
        buffer.append(name);
        buffer.append("(");
        buffer.append(buffer_parameter.as_str());
        buffer.append(") end\n");

        let mut path = String::from_str("function_");
        path.append(from.as_str());
        path.append(".");
        path.append(name);
        proof {
            assert(buffer@ =~= self.data_spec(name@, method));
            assert(path@ =~= self.path_spec(name@, method));
        }
        OutFile { path, data: buffer }
    }
}

//================================================================

/// Whether `s` ends with `t`.
pub open spec fn ends_with(s: Seq<char>, t: Seq<char>) -> bool {
    t.len() <= s.len() && s.subrange(s.len() - t.len(), s.len() as int) == t
}

/// The total length of the parameter names.
pub open spec fn names_len(ps: Seq<Value>) -> int
    decreases ps.len(),
{
    if ps.len() == 0 {
        0
    } else {
        names_len(ps.drop_last()) + ps.last().name@.len()
    }
}

proof fn lemma_ends_with_concat(a: Seq<char>, t: Seq<char>)
    ensures
        ends_with(a + t, t),
{
    assert((a + t).subrange(a.len() as int, (a + t).len() as int) =~= t);
}

/// The parameter list of a declaration is the names joined by `", "`: it holds the names and
/// one two-character separator between each two of them, and it starts with the first name and
/// ends with the last.
pub proof fn lemma_param_names_joined(ps: Seq<Value>)
    ensures
        ps.len() > 0 ==> param_names(ps).len() == names_len(ps) + 2 * (ps.len() - 1),
        ps.len() == 0 ==> param_names(ps).len() == 0,
        ps.len() > 0 ==> ends_with(param_names(ps), ps.last().name@),
        ps.len() > 0 ==> param_names(ps).len() >= ps[0].name@.len() && param_names(ps).subrange(
            0,
            ps[0].name@.len() as int,
        ) == ps[0].name@,
    decreases ps.len(),
{
    if ps.len() == 1 {
        assert(ps.drop_last().len() == 0);
        assert(names_len(ps.drop_last()) == 0);
        assert(ps.last() == ps[0]);
        assert(names_len(ps) == ps[0].name@.len());
        assert(param_names(ps).subrange(0, ps[0].name@.len() as int) =~= ps[0].name@);
        assert(param_names(ps).subrange(0, ps[0].name@.len() as int) =~= param_names(ps));
        lemma_ends_with_concat(Seq::empty(), ps[0].name@);
        assert(Seq::<char>::empty() + ps[0].name@ =~= ps[0].name@);
    } else if ps.len() > 1 {
        let rest = ps.drop_last();
        lemma_param_names_joined(rest);
        reveal_strlit(", ");
        assert(rest[0] == ps[0]);
        let front = param_names(rest) + ", "@;
        assert(param_names(ps) == front + ps.last().name@);
        assert(names_len(ps) == names_len(rest) + ps.last().name@.len());
        assert(param_names(ps).len() == param_names(rest).len() + 2 + ps.last().name@.len());
        lemma_ends_with_concat(front, ps.last().name@);
        assert(param_names(ps).subrange(0, ps[0].name@.len() as int) =~= param_names(rest).subrange(
            0,
            ps[0].name@.len() as int,
        ));
    }
}

/// A declaration's parameter list is closed right after the last name: the annotation text of
/// a function ends with its last parameter's name and `) end`, or with its own name and `() end`
/// when it has no parameter.
pub proof fn lemma_declaration_end(f: Function, name: Seq<char>, method: bool)
    ensures
        f.parameter@.len() > 0 ==> ends_with(
            f.data_spec(name, method),
            f.parameter@.last().name@ + ") end\n"@,
        ),
        f.parameter@.len() == 0 ==> ends_with(f.data_spec(name, method), name + "() end\n"@),
{
    let ps = f.parameter@;
    let head = info_text(f.info@) + param_lines(ps) + result_lines(f.result@) + "function "@
        + f.owner_spec(method) + (if method {
        ":"@
    } else {
        "."@
    });
    if ps.len() > 0 {
        let n = ps.last().name@;
        let init = if ps.len() == 1 {
            Seq::<char>::empty()
        } else {
            param_names(ps.drop_last()) + ", "@
        };
        if ps.len() == 1 {
            assert(ps.last() == ps[0]);
            assert(param_names(ps) =~= init + n);
        } else {
            assert(param_names(ps) == init + n);
        }
        assert(f.data_spec(name, method) =~= (head + name + "("@ + init) + (n + ") end\n"@));
        lemma_ends_with_concat(head + name + "("@ + init, n + ") end\n"@);
    } else {
        reveal_strlit("(");
        reveal_strlit(") end\n");
        reveal_strlit("() end\n");
        assert(param_names(ps).len() == 0);
        assert(f.data_spec(name, method) =~= head + (name + "() end\n"@));
        lemma_ends_with_concat(head, name + "() end\n"@);
    }
}

/// An annotation name is the value's name, followed by one `?` exactly when the value is
/// optional; an annotation kind is the kind's word, followed by `|nil` exactly when the value is
/// optional.
pub proof fn lemma_optional_marks(v: Value)
    ensures
        v.name_spec().len() == v.name@.len() + (if v.optional == Some(true) { 1int } else { 0 }),
        v.name_spec().subrange(0, v.name@.len() as int) == v.name@,
        v.optional == Some(true) ==> v.name_spec().last() == '?',
        v.kind_spec().len() == v.kind.text_spec().len() + (if v.optional == Some(true) { 4int } else { 0 }),
        v.kind_spec().subrange(0, v.kind.text_spec().len() as int) == v.kind.text_spec(),
        v.optional == Some(true) ==> ends_with(v.kind_spec(), "|nil"@),
{
    reveal_strlit("?");
    reveal_strlit("|nil");
    assert(v.name_spec().subrange(0, v.name@.len() as int) =~= v.name@);
    assert(v.kind_spec().subrange(0, v.kind.text_spec().len() as int) =~= v.kind.text_spec());
    if v.optional == Some(true) {
        lemma_ends_with_concat(v.kind.text_spec(), "|nil"@);
    }
}

/// A documented class of the scripting API.
pub struct Class {
    pub name: Option<String>,
    pub info: String,
}

impl Class {
    /// The class name: the one given in the annotation, or else the Rust type's name.
    pub open spec fn name_spec(&self, name: Seq<char>) -> Seq<char> {
        match self.name {
            Some(given) => given@,
            None => name,
        }
    }

    pub open spec fn path_spec(&self, name: Seq<char>) -> Seq<char> {
        "class_"@ + self.name_spec(name)
    }

    pub open spec fn data_spec(&self, name: Seq<char>) -> Seq<char> {
        info_text(self.info@) + "---@class "@ + self.name_spec(name) + "\n"@ + self.name_spec(name)
            + " = {}"@
    }

    /// The annotation file of the class: its comment block, a `---@class` line and an empty
    /// table declaration.
    pub fn write(&self, name: &str) -> (out: OutFile)
        ensures
            out.path@ == self.path_spec(name@),
            out.data@ == self.data_spec(name@),
    {
        let mut buffer = String::new();
        let class_name: &str = match &self.name {
            Some(given) => given.as_str(),
            None => name,
        };
        push_info(&mut buffer, self.info.as_str());
        buffer.append("---@class ");
        buffer.append(class_name);
        buffer.append("\n");
        buffer.append(class_name);
        buffer.append(" = {}");

        let mut path = String::from_str("class_");
        path.append(class_name);
        proof {
            assert(buffer@ =~= self.data_spec(name@));
        }
        OutFile { path, data: buffer }
    }
}

/// A documented module (a table under `laravox`) of the scripting API.
pub struct Module {
    pub name: String,
    pub info: String,
}

impl Module {
    pub open spec fn path_spec(&self) -> Seq<char> {
        "module_"@ + self.name@
    }

    pub open spec fn data_spec(&self) -> Seq<char> {
        info_text(self.info@) + "laravox."@ + self.name@ + " = {}"@
    }

    /// The annotation file of the module: its comment block and its table declaration.
    pub fn write(&self) -> (out: OutFile)
        ensures
            out.path@ == self.path_spec(),
            out.data@ == self.data_spec(),
    {
        let mut buffer = String::new();
        push_info(&mut buffer, self.info.as_str());
        buffer.append("laravox.");
        buffer.append(self.name.as_str());
        buffer.append(" = {}");

        let mut path = String::from_str("module_");
        path.append(self.name.as_str());
        proof {
            assert(buffer@ =~= self.data_spec());
        }
        OutFile { path, data: buffer }
    }
}

} // verus!
