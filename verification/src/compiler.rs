//! The single-pass Pratt compiler: tokens in, a validated program out.
//!
//! Nested functions are compiled on a stack of function contexts rather
//! than by spawning child compilers; the innermost context owns the chunk
//! being emitted. All recursion is metered by a gas counter that the
//! source's length bounds generously, so compilation provably terminates;
//! a program that exhausted the meter would fail with an ordinary
//! compile error. A successful compile returns a program that satisfies
//! `validator::program_wf`: every chunk decodes cleanly and ends in
//! RETURN, every jump lands within its chunk, and every CLOSURE carries
//! exactly its function's upvalue-descriptor pairs.

use vstd::prelude::*;
use vstd::string::StringExecFns;
use crate::function::Upvalue;
use crate::function::WeaveFn;
use crate::opcode::Op;
use crate::parse_rule::InfixAction;
use crate::parse_rule::ParseRule;
use crate::parse_rule::PrefixAction;
use crate::parser::Parser;
use crate::precedence::Precedence;
use crate::scope::Scope;
use crate::token::TokenType;
use crate::validator::Program;
use crate::validator::program_wf;
use crate::validator::program_wf_check;
use crate::value::NanBoxedValue;
use crate::value::PointerTag;

verus! {

pub type CompileResult = Result<Program, String>;

/// Whether an identifier in prefix position may begin an assignment.
#[derive(Debug, Clone, Copy, PartialEq, Eq, Structural)]
pub enum AssignMode {
    Yes,
    No,
}

/// One function being compiled: its growing code and whether it is the
/// script body (which no `return` statement may leave).
pub struct FuncCtx {
    pub function: WeaveFn,
    pub is_script: bool,
}

pub struct Compiler {
    pub line: usize,
    pub parser: Parser,
    pub had_error: bool,
    pub panic_mode: bool,
    pub ctxs: Vec<FuncCtx>,
    pub scope: Scope,
    pub funcs: Vec<WeaveFn>,
    pub strings: Vec<Vec<u8>>,
    pub gas: u64,
}

impl Compiler {
    /// The code of the chunk being compiled (the innermost context's).
    pub open spec fn cur_code(self) -> Seq<u8>
        recommends
            self.ctxs@.len() > 0,
    {
        self.ctxs@[self.ctxs@.len() - 1].function.chunk.code@
    }

    pub open spec fn wf(self) -> bool {
        &&& self.parser.wf()
        &&& self.scope.wf()
        &&& self.ctxs@.len() == self.scope.depth + 1
        &&& self.strings@.len() <= 0xFFFFFFFFFFFF
    }

    pub fn new(source: &str, _debug_mode: bool) -> (r: Compiler)
        ensures
            r.wf(),
    {
        let parser = Parser::new(source);
        let source_len = parser.scanner.code.len() as u64;
        let gas: u64 = if source_len > 0x100000000000000 {
            u64::MAX
        } else {
            16 * source_len + 64
        };
        let mut ctxs: Vec<FuncCtx> = Vec::new();
        ctxs.push(FuncCtx { function: WeaveFn::new(Vec::new()), is_script: true });
        Compiler {
            line: 1,
            parser,
            had_error: false,
            panic_mode: false,
            ctxs,
            scope: Scope::new(),
            funcs: Vec::new(),
            strings: Vec::new(),
            gas,
        }
    }

    /// Burns one unit of gas; at zero the compilation is abandoned with
    /// an error instead of running on.
    fn spend(&mut self) -> (r: bool)
        requires
            old(self).wf(),
        ensures
            final(self).wf(),
            final(self).gas <= old(self).gas,
            r == (old(self).gas > 0),
            r ==> final(self).gas < old(self).gas,
            final(self).scope.depth == old(self).scope.depth,
            final(self).ctxs@.len() == old(self).ctxs@.len(),
    {
        if self.gas == 0 {
            self.had_error = true;
            false
        } else {
            self.gas = self.gas - 1;
            true
        }
    }

    /// Moves to the next token, reporting and skipping ERROR tokens.
    pub fn advance(&mut self)
        requires
            old(self).wf(),
        ensures
            final(self).wf(),
            final(self).gas <= old(self).gas,
            final(self).scope.depth == old(self).scope.depth,
            final(self).ctxs@.len() == old(self).ctxs@.len(),
    {
        loop
            invariant
                self.wf(),
                self.gas <= old(self).gas,
                self.scope.depth == old(self).scope.depth,
                self.ctxs@.len() == old(self).ctxs@.len(),
            decreases self.gas,
        {
            if !self.spend() {
                return ;
            }
            let next = self.parser.next_token();
            match next {
                Some(token) => {
                    if token.token_type == TokenType::ERROR {
                        let t = token;
                        self.report_err_at_line(t.line, "Parsing error");
                    } else {
                        self.line = token.line;
                        return ;
                    }
                },
                None => {
                    return ;
                },
            }
        }
    }

    /// Advances past a token of the expected kind, or reports the error.
    pub fn consume(&mut self, token_type: TokenType, message: &str)
        requires
            old(self).wf(),
        ensures
            final(self).wf(),
            final(self).gas <= old(self).gas,
            final(self).scope.depth == old(self).scope.depth,
            final(self).ctxs@.len() == old(self).ctxs@.len(),
    {
        if self.parser.cur_is(token_type) {
            self.advance();
        } else {
            self.report_err(message);
        }
    }

    /// Advances past a token of the given kind if it is next.
    fn check(&mut self, token: TokenType) -> (r: bool)
        requires
            old(self).wf(),
        ensures
            final(self).wf(),
            final(self).gas <= old(self).gas,
            final(self).scope.depth == old(self).scope.depth,
            final(self).ctxs@.len() == old(self).ctxs@.len(),
    {
        if self.parser.cur_is(token) {
            self.advance();
            true
        } else {
            false
        }
    }

    fn report_err(&mut self, message: &str)
        requires
            old(self).wf(),
        ensures
            final(self).wf(),
            final(self).gas == old(self).gas,
            final(self).scope.depth == old(self).scope.depth,
            final(self).ctxs@.len() == old(self).ctxs@.len(),
            final(self).had_error,
    {
        let line = self.line;
        self.report_err_at_line(line, message);
    }

    /// Reports a compile error once; panic mode swallows the cascade
    /// until a statement boundary resynchronises.
    fn report_err_at_line(&mut self, _line: usize, _message: &str)
        requires
            old(self).wf(),
        ensures
            final(self).wf(),
            final(self).gas == old(self).gas,
            final(self).scope.depth == old(self).scope.depth,
            final(self).ctxs@.len() == old(self).ctxs@.len(),
            final(self).had_error,
    {
        self.had_error = true;
        if !self.panic_mode {
            self.panic_mode = true;
        }
    }

    /// Skips tokens to the next statement boundary after an error.
    fn synchronize(&mut self)
        requires
            old(self).wf(),
        ensures
            final(self).wf(),
            final(self).gas <= old(self).gas,
            final(self).scope.depth == old(self).scope.depth,
            final(self).ctxs@.len() == old(self).ctxs@.len(),
    {
        self.panic_mode = false;
        loop
            invariant
                self.wf(),
                self.gas <= old(self).gas,
                self.scope.depth == old(self).scope.depth,
                self.ctxs@.len() == old(self).ctxs@.len(),
            decreases self.gas,
        {
            if self.parser.cur_is(TokenType::EOF) {
                return ;
            }
            if !self.spend() {
                return ;
            }
            if self.parser.previous().token_type == TokenType::Semicolon {
                return ;
            }
            let t = self.parser.peek_type();
            if t == TokenType::FN || t == TokenType::Puts || t == TokenType::If || t
                == TokenType::Return {
                return ;
            }
            self.advance();
        }
    }

    /// Interns a string in the program's string table and returns its
    /// index, which always fits a boxed string payload.
    fn intern(&mut self, name: &Vec<u8>) -> (r: u64)
        requires
            old(self).wf(),
        ensures
            final(self).wf(),
            final(self).gas == old(self).gas,
            final(self).scope.depth == old(self).scope.depth,
            final(self).ctxs@.len() == old(self).ctxs@.len(),
            r <= 0xFFFFFFFFFFFF,
            (r as int) < final(self).strings@.len(),
    {
        let n = self.strings.len();
        let mut i: usize = 0;
        while i < n
            invariant
                i <= n,
                n == self.strings@.len(),
                n <= 0xFFFFFFFFFFFF,
                self == old(self),
                self.wf(),
            decreases n - i,
        {
            if crate::bytes::bytes_eq(&self.strings[i], name) {
                return i as u64;
            }
            i = i + 1;
        }
        if (n as u64) >= 0xFFFFFFFFFFFFu64 {
            self.had_error = true;
            return 0;
        }
        self.strings.push(crate::bytes::copy_bytes(name));
        n as u64
    }

    /// Appends bytes to the chunk being compiled.
    fn emit_bytes(&mut self, bytes: &Vec<u8>)
        requires
            old(self).wf(),
        ensures
            final(self).wf(),
            final(self).gas == old(self).gas,
            final(self).scope.depth == old(self).scope.depth,
            final(self).ctxs@.len() == old(self).ctxs@.len(),
    {
        let line = self.line;
        let last = self.ctxs.len() - 1;
        let ctx = &mut self.ctxs[last];
        ctx.function.chunk.write(bytes, line);
    }

    /// Appends one operand-free instruction to the chunk being compiled.
    fn emit_basic_opcode(&mut self, op: Op)
        requires
            old(self).wf(),
        ensures
            final(self).wf(),
            final(self).gas == old(self).gas,
            final(self).scope.depth == old(self).scope.depth,
            final(self).ctxs@.len() == old(self).ctxs@.len(),
            final(self).cur_code() == old(self).cur_code().push(op.spec_byte()),
    {
        let line = self.line;
        let last = self.ctxs.len() - 1;
        let ctx = &mut self.ctxs[last];
        ctx.function.chunk.write_op(op, line);
    }

    /// Appends one instruction with operand bytes.
    fn emit_opcode(&mut self, op: Op, args: &Vec<u8>)
        requires
            old(self).wf(),
        ensures
            final(self).wf(),
            final(self).gas == old(self).gas,
            final(self).scope.depth == old(self).scope.depth,
            final(self).ctxs@.len() == old(self).ctxs@.len(),
    {
        self.emit_basic_opcode(op);
        self.emit_bytes(args);
    }

    /// Appends a CONSTANT instruction pushing `value`.
    fn emit_const_value(&mut self, value: NanBoxedValue)
        requires
            old(self).wf(),
        ensures
            final(self).wf(),
            final(self).gas == old(self).gas,
            final(self).scope.depth == old(self).scope.depth,
            final(self).ctxs@.len() == old(self).ctxs@.len(),
    {
        let line = self.line;
        let last = self.ctxs.len() - 1;
        let before = self.ctxs[last].function.chunk.constants.len();
        if before > 0xFFFF {
            // The pool is full; a fresh constant could not be addressed.
            self.report_err("Too many constants in one chunk");
            return ;
        }
        let ctx = &mut self.ctxs[last];
        let _ = ctx.function.chunk.emit_constant(value, line);
    }

    /// The length of the chunk being compiled.
    fn cur_code_len(&self) -> (r: usize)
        requires
            self.wf(),
        ensures
            r == self.ctxs@[self.ctxs@.len() - 1].function.chunk.code@.len(),
    {
        self.ctxs[self.ctxs.len() - 1].function.chunk.code.len()
    }

    /// Emits a jump with a placeholder offset and returns where the
    /// offset sits, for patching.
    fn emit_jump(&mut self, op: Op) -> (r: usize)
        requires
            old(self).wf(),
        ensures
            final(self).wf(),
            final(self).gas == old(self).gas,
            final(self).scope.depth == old(self).scope.depth,
            final(self).ctxs@.len() == old(self).ctxs@.len(),
    {
        let mut args: Vec<u8> = Vec::new();
        args.push(0xFF);
        args.push(0xFF);
        self.emit_opcode(op, &args);
        let len = self.cur_code_len();
        if len >= 2 {
            len - 2
        } else {
            0
        }
    }

    /// Patches a previously emitted jump to land just past the code
    /// emitted since.
    fn patch_jump(&mut self, jmp_param: usize)
        requires
            old(self).wf(),
        ensures
            final(self).wf(),
            final(self).gas == old(self).gas,
            final(self).scope.depth == old(self).scope.depth,
            final(self).ctxs@.len() == old(self).ctxs@.len(),
    {
        let len = self.cur_code_len();
        if len < 2 || jmp_param > len - 2 {
            self.report_err("Jump patch out of range");
            return ;
        }
        let jump = len - jmp_param - 2;
        if jump > 0xFFFF {
            self.report_err("Too much code to jump over");
            return ;
        }
        let hi = (jump / 256) as u8;
        let lo = (jump % 256) as u8;
        let last = self.ctxs.len() - 1;
        let ctx = &mut self.ctxs[last];
        ctx.function.chunk.code.set(jmp_param, hi);
        ctx.function.chunk.code.set(jmp_param + 1, lo);
    }

    /// Emits a backward jump to `target`.
    fn emit_loop(&mut self, target: usize)
        requires
            old(self).wf(),
        ensures
            final(self).wf(),
            final(self).gas == old(self).gas,
            final(self).scope.depth == old(self).scope.depth,
            final(self).ctxs@.len() == old(self).ctxs@.len(),
    {
        let emit_pos = self.cur_code_len();
        if target > emit_pos {
            self.report_err("Loop target out of range");
            return ;
        }
        let base = emit_pos - target;
        if base > 0xFFFC {
            self.report_err("Loop body too large");
            return ;
        }
        let offset = base + 3;
        let hi = (offset / 256) as u8;
        let lo = (offset % 256) as u8;
        let mut args: Vec<u8> = Vec::new();
        args.push(hi);
        args.push(lo);
        self.emit_opcode(Op::Loop, &args);
    }

    /// Compiles the whole source: a sequence of declarations ending at
    /// EOF, closed by an implicit RETURN. On success the program is well
    /// formed in the sense of `validator::program_wf`: chunks decode, end
    /// in RETURN, jumps stay inside their chunk, and CLOSURE pair counts
    /// match their functions.
    pub fn compile(&mut self) -> (r: CompileResult)
        requires
            old(self).wf(),
        ensures
            r is Ok ==> program_wf(r->Ok_0),
            (r is Ok) <==> !final(self).had_error,
    {
        self.advance();
        loop
            invariant
                self.wf(),
            decreases self.gas,
        {
            if self.parser.cur_is(TokenType::EOF) {
                break ;
            }
            if self.gas == 0 {
                self.had_error = true;
                break ;
            }
            self.declaration();
        }
        self.consume(TokenType::EOF, "Expected end of file");
        self.emit_basic_opcode(Op::RETURN);
        if self.had_error {
            return Err(String::from_str("Compilation error"));
        }
        // Close the script context and check the program's shape.
        let script_ctx = self.ctxs.pop();
        let script_fn = match script_ctx {
            Some(c) => c.function,
            None => {
                self.had_error = true;
                return Err(String::from_str("Compilation error"));
            },
        };
        self.funcs.push(script_fn);
        let script = self.funcs.len() - 1;
        let mut functions: Vec<WeaveFn> = Vec::new();
        std::mem::swap(&mut functions, &mut self.funcs);
        let mut strings: Vec<Vec<u8>> = Vec::new();
        std::mem::swap(&mut strings, &mut self.strings);
        let program = Program { functions, strings, script };
        if !program_wf_check(&program) {
            self.had_error = true;
            return Err(String::from_str("Compilation error"));
        }
        Ok(program)
    }

    /// One declaration: resynchronise after an error, then a statement.
    pub fn declaration(&mut self)
        requires
            old(self).wf(),
        ensures
            final(self).wf(),
            final(self).gas <= old(self).gas,
            old(self).gas > 0 ==> final(self).gas < old(self).gas,
            final(self).scope.depth == old(self).scope.depth,
            final(self).ctxs@.len() == old(self).ctxs@.len(),
        decreases old(self).gas, 10int,
    {
        if !self.spend() {
            return ;
        }
        if self.panic_mode {
            self.synchronize();
        }
        self.statement();
    }

    /// One statement, chosen by its leading keyword.
    pub fn statement(&mut self)
        requires
            old(self).wf(),
        ensures
            final(self).wf(),
            final(self).gas <= old(self).gas,
            final(self).scope.depth == old(self).scope.depth,
            final(self).ctxs@.len() == old(self).ctxs@.len(),
        decreases old(self).gas, 9int,
    {
        if self.check(TokenType::Puts) {
            self.puts_statement();
        } else if self.check(TokenType::Return) {
            self.return_statement();
        } else if self.check(TokenType::If) {
            self.if_statement();
        } else if self.check(TokenType::FN) {
            self.function_statement();
        } else if self.check(TokenType::While) {
            self.while_statement();
        } else {
            self.expression_statement();
        }
    }

    /// `puts expr`: the expression, then PRINT; the printed value stays
    /// on the stack.
    fn puts_statement(&mut self)
        requires
            old(self).wf(),
        ensures
            final(self).wf(),
            final(self).gas <= old(self).gas,
            final(self).scope.depth == old(self).scope.depth,
            final(self).ctxs@.len() == old(self).ctxs@.len(),
            final(self).cur_code().len() > 0 && final(self).cur_code().last()
                == Op::PRINT.spec_byte(),
        decreases old(self).gas, 8int,
    {
        self.expression();
        self.emit_basic_opcode(Op::PRINT);
    }

    /// `return [expr]`, rejected at script level.
    fn return_statement(&mut self)
        requires
            old(self).wf(),
        ensures
            final(self).wf(),
            final(self).gas <= old(self).gas,
            final(self).scope.depth == old(self).scope.depth,
            final(self).ctxs@.len() == old(self).ctxs@.len(),
        decreases old(self).gas, 8int,
    {
        let last = self.ctxs.len() - 1;
        if self.ctxs[last].is_script {
            self.report_err("Can't return from script");
            return ;
        }
        if self.check(TokenType::Semicolon) {
            self.emit_basic_opcode(Op::RETURN);
        } else {
            self.expression();
            self.emit_basic_opcode(Op::RETURN);
        }
    }

    /// `if expr { … } [else { … }]` with a pair of patched jumps.
    fn if_statement(&mut self)
        requires
            old(self).wf(),
        ensures
            final(self).wf(),
            final(self).gas <= old(self).gas,
            final(self).scope.depth == old(self).scope.depth,
            final(self).ctxs@.len() == old(self).ctxs@.len(),
        decreases old(self).gas, 8int,
    {
        self.expression_statement();
        let then_jump = self.emit_jump(Op::JumpIfFalse);
        self.consume(TokenType::LeftBrace, "Expected Block after condition");
        self.block();
        let else_jump = self.emit_jump(Op::Jump);
        self.patch_jump(then_jump);
        if self.check(TokenType::Else) {
            self.consume(TokenType::LeftBrace, "Expected Block after 'else'");
            self.block();
        }
        self.patch_jump(else_jump);
    }

    /// `while expr { … }` with a backward LOOP to the condition.
    fn while_statement(&mut self)
        requires
            old(self).wf(),
        ensures
            final(self).wf(),
            final(self).gas <= old(self).gas,
            final(self).scope.depth == old(self).scope.depth,
            final(self).ctxs@.len() == old(self).ctxs@.len(),
        decreases old(self).gas, 8int,
    {
        let cond_start = self.cur_code_len();
        self.expression_statement();
        let exit_jump = self.emit_jump(Op::JumpIfFalse);
        self.consume(TokenType::LeftBrace, "Expected Block after condition");
        self.block();
        self.emit_basic_opcode(Op::POP);
        self.emit_loop(cond_start);
        self.patch_jump(exit_jump);
    }

    /// `fn name(params) { … }`: the body compiles in its own context and
    /// scope; the closure is then bound to the name in the enclosing
    /// scope.
    fn function_statement(&mut self)
        requires
            old(self).wf(),
        ensures
            final(self).wf(),
            final(self).gas <= old(self).gas,
            final(self).scope.depth == old(self).scope.depth,
            final(self).ctxs@.len() == old(self).ctxs@.len(),
        decreases old(self).gas, 8int,
    {
        self.consume(TokenType::Identifier, "Expected function name");
        let fn_name = self.parser.previous();
        let name_bytes = match fn_name.lexeme.txt {
            Some(t) => t,
            None => Vec::new(),
        };
        if self.scope.depth == 255 {
            self.report_err("Functions nested too deeply");
            return ;
        }
        self.scope.enter_function_scope();
        self.ctxs.push(
            FuncCtx { function: WeaveFn::new(crate::bytes::copy_bytes(&name_bytes)), is_script: false },
        );
        self.function_body();
        self.finish_function();
        self.set_named_variable(&name_bytes);
    }

    /// Parameters, body block and the implicit RETURN of the context on
    /// top.
    fn function_body(&mut self)
        requires
            old(self).wf(),
        ensures
            final(self).wf(),
            final(self).gas <= old(self).gas,
            final(self).scope.depth == old(self).scope.depth,
            final(self).ctxs@.len() == old(self).ctxs@.len(),
        decreases old(self).gas, 7int,
    {
        self.consume(TokenType::LeftParen, "Expected '(' after function name");
        self.function_params();
        self.consume(TokenType::RightParen, "Expected ')' after function params");
        self.consume(TokenType::LeftBrace, "Expected '{' before function body");
        self.block();
        self.emit_basic_opcode(Op::RETURN);
    }

    /// Zero or more comma-separated parameter names; each becomes a
    /// local of the new function.
    fn function_params(&mut self)
        requires
            old(self).wf(),
        ensures
            final(self).wf(),
            final(self).gas <= old(self).gas,
            final(self).scope.depth == old(self).scope.depth,
            final(self).ctxs@.len() == old(self).ctxs@.len(),
        decreases old(self).gas, 6int,
    {
        if self.parser.cur_is(TokenType::RightParen) {
            return ;
        }
        let mut more = true;
        while more
            invariant
                self.wf(),
                self.gas <= old(self).gas,
                self.scope.depth == old(self).scope.depth,
                self.ctxs@.len() == old(self).ctxs@.len(),
            decreases self.gas,
        {
            if !self.spend() {
                return ;
            }
            self.consume(TokenType::Identifier, "Expected parameter name");
            let prev = self.parser.previous();
            let name = match prev.lexeme.txt {
                Some(t) => t,
                None => Vec::new(),
            };
            let last = self.ctxs.len() - 1;
            let ctx = &mut self.ctxs[last];
            if ctx.function.arity < 255 {
                ctx.function.arity = ctx.function.arity + 1;
            }
            let _ = self.add_local(name);
            more = self.check(TokenType::Comma);
        }
    }

    /// Closes the context on top: fixes its upvalue count, appends it to
    /// the function table, emits CLOSURE with the captured descriptors in
    /// the enclosing chunk, and leaves the function's scope.
    fn finish_function(&mut self)
        requires
            old(self).wf(),
            old(self).ctxs@.len() >= 2,
        ensures
            final(self).wf(),
            final(self).gas <= old(self).gas,
            final(self).scope.depth == old(self).scope.depth - 1,
            final(self).ctxs@.len() == old(self).ctxs@.len() - 1,
    {
        let child_depth = self.scope.depth as usize;
        let upvals = self.scope.upvals_at(child_depth);
        let popped = self.ctxs.pop();
        let mut func = match popped {
            Some(c) => c.function,
            None => WeaveFn::new(Vec::new()),
        };
        func.upvalue_count = upvals.len() as u8;
        self.funcs.push(func);
        let fidx = self.funcs.len() - 1;
        self.scope.exit_scope();
        if (fidx as u64) > 0xFFFFFFFFFFFFu64 {
            self.report_err("Too many functions");
            return ;
        }
        // CLOSURE <function constant>, then one (is_local, index) pair
        // per captured upvalue.
        self.emit_basic_opcode(Op::Closure);
        let line = self.line;
        let last = self.ctxs.len() - 1;
        let before = self.ctxs[last].function.chunk.constants.len();
        if before > 0xFFFF {
            self.report_err("Too many constants in one chunk");
            return ;
        }
        let fval = NanBoxedValue::pointer(fidx as u64, PointerTag::Function);
        let ctx = &mut self.ctxs[last];
        let _ = ctx.function.chunk.add_constant(fval, line);
        let n = upvals.len();
        let mut i: usize = 0;
        while i < n
            invariant
                self.wf(),
                self.gas <= old(self).gas,
                self.scope.depth == old(self).scope.depth - 1,
                self.ctxs@.len() == old(self).ctxs@.len() - 1,
                i <= n,
                n == upvals@.len(),
            decreases n - i,
        {
            let pair = upvals[i].to_bytes();
            self.emit_bytes(&pair);
            i = i + 1;
        }
    }

    /// `^(params) { … }`: an anonymous function expression.
    pub fn lambda(&mut self, _assign_mode: AssignMode)
        requires
            old(self).wf(),
        ensures
            final(self).wf(),
            final(self).gas <= old(self).gas,
            final(self).scope.depth == old(self).scope.depth,
            final(self).ctxs@.len() == old(self).ctxs@.len(),
        decreases old(self).gas, 8int,
    {
        if self.scope.depth == 255 {
            self.report_err("Functions nested too deeply");
            return ;
        }
        let mut name: Vec<u8> = Vec::new();
        name.push(0x3C);
        name.push(0x5E);
        name.push(0x3E);
        self.scope.enter_function_scope();
        self.ctxs.push(FuncCtx { function: WeaveFn::new(name), is_script: false });
        self.function_body();
        self.finish_function();
    }

    /// A brace-delimited run of declarations.
    fn block(&mut self)
        requires
            old(self).wf(),
        ensures
            final(self).wf(),
            final(self).gas <= old(self).gas,
            final(self).scope.depth == old(self).scope.depth,
            final(self).ctxs@.len() == old(self).ctxs@.len(),
        decreases old(self).gas, 5int,
    {
        loop
            invariant
                self.wf(),
                self.gas <= old(self).gas,
                self.scope.depth == old(self).scope.depth,
                self.ctxs@.len() == old(self).ctxs@.len(),
            decreases self.gas,
        {
            if self.parser.cur_is(TokenType::RightBrace) || self.parser.cur_is(TokenType::EOF) {
                break ;
            }
            if !self.spend() {
                break ;
            }
            self.declaration();
        }
        self.consume(TokenType::RightBrace, "Expected '}' after block");
    }

    /// An expression statement: the expression, then an optional `;`.
    fn expression_statement(&mut self)
        requires
            old(self).wf(),
        ensures
            final(self).wf(),
            final(self).gas <= old(self).gas,
            final(self).scope.depth == old(self).scope.depth,
            final(self).ctxs@.len() == old(self).ctxs@.len(),
        decreases old(self).gas, 6int,
    {
        self.expression();
        let _ = self.check(TokenType::Semicolon);
    }

    /// One expression at assignment precedence.
    pub fn expression(&mut self)
        requires
            old(self).wf(),
        ensures
            final(self).wf(),
            final(self).gas <= old(self).gas,
            final(self).scope.depth == old(self).scope.depth,
            final(self).ctxs@.len() == old(self).ctxs@.len(),
        decreases old(self).gas, 4int,
    {
        if !self.spend() {
            return ;
        }
        self.parse_precedence(Precedence::ASSIGNMENT);
        let _ = self.check(TokenType::Semicolon);
    }

    /// Whether the coming token binds at least as strongly as
    /// `precedence` when used as an infix operator.
    fn infix_applies(&self, precedence: Precedence) -> (r: bool)
        requires
            self.wf(),
    {
        let t = self.parser.peek_type();
        precedence.at_most(t.precedence())
    }

    /// The Pratt core: a prefix form, then infix operators while they
    /// bind at least as strongly as `precedence`.
    fn parse_precedence(&mut self, precedence: Precedence)
        requires
            old(self).wf(),
        ensures
            final(self).wf(),
            final(self).gas <= old(self).gas,
            final(self).scope.depth == old(self).scope.depth,
            final(self).ctxs@.len() == old(self).ctxs@.len(),
        decreases old(self).gas, 3int,
    {
        if !self.spend() {
            return ;
        }
        self.advance();
        let assign_mode = if precedence.at_most(Precedence::ASSIGNMENT) {
            AssignMode::Yes
        } else {
            AssignMode::No
        };
        let prev_type = self.parser.previous().token_type;
        let rule = ParseRule::for_token(prev_type);
        match rule.prefix {
            Some(PrefixAction::Grouping) => self.grouping(assign_mode),
            Some(PrefixAction::Unary) => self.unary(assign_mode),
            Some(PrefixAction::Literal) => self.literal(assign_mode),
            Some(PrefixAction::Number) => self.number(assign_mode),
            Some(PrefixAction::Str) => self.string(assign_mode),
            Some(PrefixAction::Variable) => self.variable(assign_mode),
            Some(PrefixAction::Lambda) => self.lambda(assign_mode),
            None => {
                self.report_err("Expected prefix expression");
                return ;
            },
        }
        loop
            invariant
                self.wf(),
                self.gas <= old(self).gas,
                self.scope.depth == old(self).scope.depth,
                self.ctxs@.len() == old(self).ctxs@.len(),
            decreases self.gas,
        {
            if !self.infix_applies(precedence) {
                break ;
            }
            if !self.spend() {
                return ;
            }
            self.advance();
            let infix = ParseRule::for_token(self.parser.previous().token_type).infix;
            match infix {
                Some(InfixAction::Binary) => self.binary(),
                Some(InfixAction::Call) => self.fn_call(),
                Some(InfixAction::LogAnd) => self.log_and(),
                Some(InfixAction::LogOr) => self.log_or(),
                None => {
                    self.report_err("Expected Infix expression");
                    return ;
                },
            }
        }
    }

    /// `( expr )`.
    pub fn grouping(&mut self, _assign_mode: AssignMode)
        requires
            old(self).wf(),
        ensures
            final(self).wf(),
            final(self).gas <= old(self).gas,
            final(self).scope.depth == old(self).scope.depth,
            final(self).ctxs@.len() == old(self).ctxs@.len(),
        decreases old(self).gas, 8int,
    {
        self.expression();
        self.consume(TokenType::RightParen, "Expected ')' after expression");
    }

    /// `!expr` and `-expr`: the operand, then NOT or NEGATE.
    pub fn unary(&mut self, _assign_mode: AssignMode)
        requires
            old(self).wf(),
        ensures
            final(self).wf(),
            final(self).gas <= old(self).gas,
            final(self).scope.depth == old(self).scope.depth,
            final(self).ctxs@.len() == old(self).ctxs@.len(),
            old(self).gas > 0 && old(self).parser.tokens@.len() > 1 && old(
                self,
            ).parser.tokens@[1].token_type == TokenType::Bang ==> final(self).cur_code().last()
                == Op::NOT.spec_byte(),
            old(self).gas > 0 && old(self).parser.tokens@.len() > 1 && old(
                self,
            ).parser.tokens@[1].token_type == TokenType::Minus ==> final(self).cur_code().last()
                == Op::NEGATE.spec_byte(),
        decreases old(self).gas, 2int,
    {
        let operator = self.parser.previous().token_type;
        if !self.spend() {
            return ;
        }
        self.parse_precedence(Precedence::UNARY);
        if operator == TokenType::Bang {
            self.emit_basic_opcode(Op::NOT);
        } else if operator == TokenType::Minus {
            self.emit_basic_opcode(Op::NEGATE);
        } else {
            self.report_err("Not a unary operator");
        }
    }

    /// `true` and `false`: the matching one-byte instruction.
    pub fn literal(&mut self, _assign_mode: AssignMode)
        requires
            old(self).wf(),
        ensures
            final(self).wf(),
            final(self).gas <= old(self).gas,
            final(self).scope.depth == old(self).scope.depth,
            final(self).ctxs@.len() == old(self).ctxs@.len(),
            old(self).parser.tokens@.len() > 1 && old(self).parser.tokens@[1].token_type
                == TokenType::True ==> final(self).cur_code() == old(self).cur_code().push(
                Op::TRUE.spec_byte(),
            ),
            old(self).parser.tokens@.len() > 1 && old(self).parser.tokens@[1].token_type
                == TokenType::False ==> final(self).cur_code() == old(self).cur_code().push(
                Op::FALSE.spec_byte(),
            ),
    {
        let t = self.parser.previous().token_type;
        if t == TokenType::True {
            self.emit_basic_opcode(Op::TRUE);
        } else if t == TokenType::False {
            self.emit_basic_opcode(Op::FALSE);
        } else {
            self.report_err("Not a literal");
        }
    }

    /// A binary operator: its right operand at one level stronger, then
    /// the operator's instruction appended to the chunk being compiled —
    /// ADD for `+`, SUB for `-`, MUL for `*`, DIV for `/`, GREATER, LESS
    /// and EQUAL for the plain comparisons, and the compound forms as
    /// their dual followed by NOT.
    pub fn binary(&mut self)
        requires
            old(self).wf(),
        ensures
            final(self).wf(),
            final(self).gas <= old(self).gas,
            final(self).scope.depth == old(self).scope.depth,
            final(self).ctxs@.len() == old(self).ctxs@.len(),
            old(self).gas > 0 && old(self).parser.tokens@.len() > 1 ==> {
                let op_t = old(self).parser.tokens@[1].token_type;
                &&& (op_t == TokenType::Plus ==> final(self).cur_code().last()
                    == Op::ADD.spec_byte())
                &&& (op_t == TokenType::Minus ==> final(self).cur_code().last()
                    == Op::SUB.spec_byte())
                &&& (op_t == TokenType::Star ==> final(self).cur_code().last()
                    == Op::MUL.spec_byte())
                &&& (op_t == TokenType::Slash ==> final(self).cur_code().last()
                    == Op::DIV.spec_byte())
                &&& (op_t == TokenType::Greater ==> final(self).cur_code().last()
                    == Op::GREATER.spec_byte())
                &&& (op_t == TokenType::Less ==> final(self).cur_code().last()
                    == Op::LESS.spec_byte())
                &&& (op_t == TokenType::EqEqual ==> final(self).cur_code().last()
                    == Op::EQUAL.spec_byte())
                &&& (op_t == TokenType::GEqual || op_t == TokenType::LEqual || op_t
                    == TokenType::NEqual ==> final(self).cur_code().last() == Op::NOT.spec_byte())
            },
        decreases old(self).gas, 2int,
    {
        let operator = self.parser.previous().token_type;
        if !self.spend() {
            return ;
        }
        let rule = ParseRule::for_token(operator);
        self.parse_precedence(rule.precedence.next());
        if operator == TokenType::Plus {
            self.emit_basic_opcode(Op::ADD);
        } else if operator == TokenType::Minus {
            self.emit_basic_opcode(Op::SUB);
        } else if operator == TokenType::Slash {
            self.emit_basic_opcode(Op::DIV);
        } else if operator == TokenType::Star {
            self.emit_basic_opcode(Op::MUL);
        } else if operator == TokenType::Greater {
            self.emit_basic_opcode(Op::GREATER);
        } else if operator == TokenType::Less {
            self.emit_basic_opcode(Op::LESS);
        } else if operator == TokenType::EqEqual {
            self.emit_basic_opcode(Op::EQUAL);
        } else if operator == TokenType::GEqual {
            self.emit_basic_opcode(Op::LESS);
            self.emit_basic_opcode(Op::NOT);
        } else if operator == TokenType::LEqual {
            self.emit_basic_opcode(Op::GREATER);
            self.emit_basic_opcode(Op::NOT);
        } else if operator == TokenType::NEqual {
            self.emit_basic_opcode(Op::EQUAL);
            self.emit_basic_opcode(Op::NOT);
        } else {
            self.report_err("Not a binary operator");
        }
    }

    /// Short-circuit `&&`: skip the right side when the left is falsy.
    pub fn log_and(&mut self)
        requires
            old(self).wf(),
        ensures
            final(self).wf(),
            final(self).gas <= old(self).gas,
            final(self).scope.depth == old(self).scope.depth,
            final(self).ctxs@.len() == old(self).ctxs@.len(),
        decreases old(self).gas, 2int,
    {
        if !self.spend() {
            return ;
        }
        let else_jump = self.emit_jump(Op::JumpIfFalse);
        self.parse_precedence(Precedence::AND);
        let end_jump = self.emit_jump(Op::Jump);
        self.patch_jump(else_jump);
        self.emit_basic_opcode(Op::FALSE);
        self.patch_jump(end_jump);
    }

    /// Short-circuit `||`: keep the left side when it is truthy.
    pub fn log_or(&mut self)
        requires
            old(self).wf(),
        ensures
            final(self).wf(),
            final(self).gas <= old(self).gas,
            final(self).scope.depth == old(self).scope.depth,
            final(self).ctxs@.len() == old(self).ctxs@.len(),
        decreases old(self).gas, 2int,
    {
        if !self.spend() {
            return ;
        }
        let rhs_jump = self.emit_jump(Op::JumpIfFalse);
        self.emit_basic_opcode(Op::TRUE);
        let end_jump = self.emit_jump(Op::Jump);
        self.patch_jump(rhs_jump);
        self.parse_precedence(Precedence::OR);
        self.patch_jump(end_jump);
    }

    /// A call's arguments, then the CALL instruction.
    pub fn fn_call(&mut self)
        requires
            old(self).wf(),
        ensures
            final(self).wf(),
            final(self).gas <= old(self).gas,
            final(self).scope.depth == old(self).scope.depth,
            final(self).ctxs@.len() == old(self).ctxs@.len(),
        decreases old(self).gas, 2int,
    {
        let arg_count = self.arg_count();
        let mut args: Vec<u8> = Vec::new();
        args.push(arg_count);
        self.emit_opcode(Op::Call, &args);
    }

    /// Comma-separated arguments up to `)`; at most 255 of them.
    fn arg_count(&mut self) -> (r: u8)
        requires
            old(self).wf(),
        ensures
            final(self).wf(),
            final(self).gas <= old(self).gas,
            final(self).scope.depth == old(self).scope.depth,
            final(self).ctxs@.len() == old(self).ctxs@.len(),
        decreases old(self).gas, 1int,
    {
        let mut arg_count: u8 = 0;
        if !self.parser.cur_is(TokenType::RightParen) {
            let mut more = true;
            while more
                invariant
                    self.wf(),
                    self.gas <= old(self).gas,
                    self.scope.depth == old(self).scope.depth,
                    self.ctxs@.len() == old(self).ctxs@.len(),
                decreases self.gas,
            {
                if !self.spend() {
                    return arg_count;
                }
                self.expression();
                if arg_count == 255 {
                    self.report_err("Too many arguments");
                } else {
                    arg_count = arg_count + 1;
                }
                more = self.check(TokenType::Comma);
            }
        }
        self.consume(TokenType::RightParen, "Expected ')' after arguments");
        arg_count
    }

    /// A number literal, parsed to its bit pattern and pushed as a
    /// constant.
    pub fn number(&mut self, _assign_mode: AssignMode)
        requires
            old(self).wf(),
        ensures
            final(self).wf(),
            final(self).gas <= old(self).gas,
            final(self).scope.depth == old(self).scope.depth,
            final(self).ctxs@.len() == old(self).ctxs@.len(),
    {
        let prev = self.parser.previous();
        match prev.lexeme.txt {
            Some(text) => {
                let parsed = crate::numtext::parse_number_bits(text.as_slice());
                match parsed {
                    Some(bits) => {
                        self.emit_const_value(NanBoxedValue::number(bits));
                    },
                    None => {
                        self.report_err("Not a Number");
                    },
                }
            },
            None => {
                self.report_err("Not a Number");
            },
        }
    }

    /// A string literal, interned and pushed as a constant.
    pub fn string(&mut self, _assign_mode: AssignMode)
        requires
            old(self).wf(),
        ensures
            final(self).wf(),
            final(self).gas <= old(self).gas,
            final(self).scope.depth == old(self).scope.depth,
            final(self).ctxs@.len() == old(self).ctxs@.len(),
    {
        let prev = self.parser.previous();
        let text = match prev.lexeme.txt {
            Some(t) => t,
            None => Vec::new(),
        };
        let idx = self.intern(&text);
        self.emit_const_value(NanBoxedValue::string(idx));
    }

    /// An identifier in prefix position: an assignment when `=` follows
    /// and assignment is allowed here, otherwise a read.
    pub fn variable(&mut self, assign_mode: AssignMode)
        requires
            old(self).wf(),
        ensures
            final(self).wf(),
            final(self).gas <= old(self).gas,
            final(self).scope.depth == old(self).scope.depth,
            final(self).ctxs@.len() == old(self).ctxs@.len(),
        decreases old(self).gas, 2int,
    {
        if self.parser.peek_type() == TokenType::Equal && assign_mode == AssignMode::Yes {
            self.variable_set();
        } else {
            self.variable_get();
        }
    }

    /// A read of a name: a local, an upvalue of an enclosing function,
    /// or a global.
    fn variable_get(&mut self)
        requires
            old(self).wf(),
        ensures
            final(self).wf(),
            final(self).gas <= old(self).gas,
            final(self).scope.depth == old(self).scope.depth,
            final(self).ctxs@.len() == old(self).ctxs@.len(),
    {
        let prev = self.parser.previous();
        let identifier = match prev.lexeme.txt {
            Some(t) => t,
            None => Vec::new(),
        };
        let idx = self.scope.resolve_local(&identifier);
        if idx >= 0 {
            if idx > 255 {
                self.report_err("Too many locals in function");
                return ;
            }
            let mut args: Vec<u8> = Vec::new();
            args.push(idx as u8);
            self.emit_opcode(Op::GetLocal, &args);
            return ;
        }
        let upval = self.scope.resolve_upvalue(&identifier);
        match upval {
            Some(u) => {
                let mut args: Vec<u8> = Vec::new();
                args.push(u.idx);
                self.emit_opcode(Op::GetUpvalue, &args);
            },
            None => {
                let sidx = self.intern(&identifier);
                self.emit_const_value(NanBoxedValue::string(sidx));
                self.emit_basic_opcode(Op::GetGlobal);
            },
        }
    }

    /// `name = expr`: the right side first, then the store.
    fn variable_set(&mut self)
        requires
            old(self).wf(),
        ensures
            final(self).wf(),
            final(self).gas <= old(self).gas,
            final(self).scope.depth == old(self).scope.depth,
            final(self).ctxs@.len() == old(self).ctxs@.len(),
        decreases old(self).gas, 1int,
    {
        let prev = self.parser.previous();
        let identifier = match prev.lexeme.txt {
            Some(t) => t,
            None => Vec::new(),
        };
        if !self.spend() {
            return ;
        }
        self.consume(TokenType::Equal, "Expected assignment in declaration");
        self.expression();
        self.set_named_variable(&identifier);
    }

    /// Stores the value on the stack's top under a name: an existing
    /// local, an upvalue, a freshly declared local (at function depth),
    /// or a global (at script depth). The stored value stays on the
    /// stack, since assignment is an expression.
    fn set_named_variable(&mut self, identifier: &Vec<u8>)
        requires
            old(self).wf(),
        ensures
            final(self).wf(),
            final(self).gas <= old(self).gas,
            final(self).scope.depth == old(self).scope.depth,
            final(self).ctxs@.len() == old(self).ctxs@.len(),
    {
        if self.scope.depth > 0 {
            let idx = self.scope.resolve_local(identifier);
            if idx >= 0 {
                if idx > 255 {
                    self.report_err("Too many locals in function");
                    return ;
                }
                let mut args: Vec<u8> = Vec::new();
                args.push(idx as u8);
                self.emit_opcode(Op::SetLocal, &args);
                return ;
            }
            let upval = self.scope.resolve_upvalue(identifier);
            match upval {
                Some(u) => {
                    let mut args: Vec<u8> = Vec::new();
                    args.push(u.idx);
                    self.emit_opcode(Op::SetUpvalue, &args);
                },
                None => {
                    let slot = self.add_local(crate::bytes::copy_bytes(identifier));
                    if slot > 255 {
                        self.report_err("Too many locals in function");
                        return ;
                    }
                    let mut args: Vec<u8> = Vec::new();
                    args.push(slot as u8);
                    self.emit_opcode(Op::SetLocal, &args);
                },
            }
        } else {
            let sidx = self.intern(identifier);
            self.emit_const_value(NanBoxedValue::string(sidx));
            self.emit_basic_opcode(Op::SetGlobal);
        }
    }

    /// Declares a fresh local in the innermost scope.
    fn add_local(&mut self, identifier: Vec<u8>) -> (r: usize)
        requires
            old(self).wf(),
        ensures
            final(self).wf(),
            final(self).gas == old(self).gas,
            final(self).scope.depth == old(self).scope.depth,
            final(self).ctxs@.len() == old(self).ctxs@.len(),
    {
        self.scope.declare_local(identifier)
    }
}

} // verus!
