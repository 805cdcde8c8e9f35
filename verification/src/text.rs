//! The fixed pieces of user-visible text: diagnostic messages and value
//! display fragments, each given once as a specification-level byte sequence
//! and once as an executable constructor proved to produce it.

use vstd::prelude::*;

verus! {

/// `"Operand must be a number."`
pub open spec fn s_operand_number() -> Seq<u8> {
    seq![79u8, 112u8, 101u8, 114u8, 97u8, 110u8, 100u8, 32u8, 109u8, 117u8, 115u8, 116u8, 32u8, 98u8, 101u8, 32u8, 97u8, 32u8, 110u8, 117u8, 109u8, 98u8, 101u8, 114u8, 46u8]
}

/// `"Operand must be a number."`
pub fn t_operand_number() -> (r: Vec<u8>)
    ensures
        r@ == s_operand_number(),
{
    let r: Vec<u8> = vec![79u8, 112u8, 101u8, 114u8, 97u8, 110u8, 100u8, 32u8, 109u8, 117u8, 115u8, 116u8, 32u8, 98u8, 101u8, 32u8, 97u8, 32u8, 110u8, 117u8, 109u8, 98u8, 101u8, 114u8, 46u8];
    proof {
        assert(r@ =~= s_operand_number());
    }
    r
}

/// `"Operands must be two numbers or two strings."`
pub open spec fn s_operands_numbers_or_strings() -> Seq<u8> {
    seq![79u8, 112u8, 101u8, 114u8, 97u8, 110u8, 100u8, 115u8, 32u8, 109u8, 117u8, 115u8, 116u8, 32u8, 98u8, 101u8, 32u8, 116u8, 119u8, 111u8, 32u8, 110u8, 117u8, 109u8, 98u8, 101u8, 114u8, 115u8, 32u8, 111u8, 114u8, 32u8, 116u8, 119u8, 111u8, 32u8, 115u8, 116u8, 114u8, 105u8, 110u8, 103u8, 115u8, 46u8]
}

/// `"Operands must be two numbers or two strings."`
pub fn t_operands_numbers_or_strings() -> (r: Vec<u8>)
    ensures
        r@ == s_operands_numbers_or_strings(),
{
    let r: Vec<u8> = vec![79u8, 112u8, 101u8, 114u8, 97u8, 110u8, 100u8, 115u8, 32u8, 109u8, 117u8, 115u8, 116u8, 32u8, 98u8, 101u8, 32u8, 116u8, 119u8, 111u8, 32u8, 110u8, 117u8, 109u8, 98u8, 101u8, 114u8, 115u8, 32u8, 111u8, 114u8, 32u8, 116u8, 119u8, 111u8, 32u8, 115u8, 116u8, 114u8, 105u8, 110u8, 103u8, 115u8, 46u8];
    proof {
        assert(r@ =~= s_operands_numbers_or_strings());
    }
    r
}

/// `"Undefined variable '"`
pub open spec fn s_undefined_variable() -> Seq<u8> {
    seq![85u8, 110u8, 100u8, 101u8, 102u8, 105u8, 110u8, 101u8, 100u8, 32u8, 118u8, 97u8, 114u8, 105u8, 97u8, 98u8, 108u8, 101u8, 32u8, 39u8]
}

/// `"Undefined variable '"`
pub fn t_undefined_variable() -> (r: Vec<u8>)
    ensures
        r@ == s_undefined_variable(),
{
    let r: Vec<u8> = vec![85u8, 110u8, 100u8, 101u8, 102u8, 105u8, 110u8, 101u8, 100u8, 32u8, 118u8, 97u8, 114u8, 105u8, 97u8, 98u8, 108u8, 101u8, 32u8, 39u8];
    proof {
        assert(r@ =~= s_undefined_variable());
    }
    r
}

/// `"Uninitialized variable '"`
pub open spec fn s_uninitialized_variable() -> Seq<u8> {
    seq![85u8, 110u8, 105u8, 110u8, 105u8, 116u8, 105u8, 97u8, 108u8, 105u8, 122u8, 101u8, 100u8, 32u8, 118u8, 97u8, 114u8, 105u8, 97u8, 98u8, 108u8, 101u8, 32u8, 39u8]
}

/// `"Uninitialized variable '"`
pub fn t_uninitialized_variable() -> (r: Vec<u8>)
    ensures
        r@ == s_uninitialized_variable(),
{
    let r: Vec<u8> = vec![85u8, 110u8, 105u8, 110u8, 105u8, 116u8, 105u8, 97u8, 108u8, 105u8, 122u8, 101u8, 100u8, 32u8, 118u8, 97u8, 114u8, 105u8, 97u8, 98u8, 108u8, 101u8, 32u8, 39u8];
    proof {
        assert(r@ =~= s_uninitialized_variable());
    }
    r
}

/// `"'"`
pub open spec fn s_quote() -> Seq<u8> {
    seq![39u8]
}

/// `"'"`
pub fn t_quote() -> (r: Vec<u8>)
    ensures
        r@ == s_quote(),
{
    let r: Vec<u8> = vec![39u8];
    proof {
        assert(r@ =~= s_quote());
    }
    r
}

/// `"Can only call functions and classes"`
pub open spec fn s_not_callable() -> Seq<u8> {
    seq![67u8, 97u8, 110u8, 32u8, 111u8, 110u8, 108u8, 121u8, 32u8, 99u8, 97u8, 108u8, 108u8, 32u8, 102u8, 117u8, 110u8, 99u8, 116u8, 105u8, 111u8, 110u8, 115u8, 32u8, 97u8, 110u8, 100u8, 32u8, 99u8, 108u8, 97u8, 115u8, 115u8, 101u8, 115u8]
}

/// `"Can only call functions and classes"`
pub fn t_not_callable() -> (r: Vec<u8>)
    ensures
        r@ == s_not_callable(),
{
    let r: Vec<u8> = vec![67u8, 97u8, 110u8, 32u8, 111u8, 110u8, 108u8, 121u8, 32u8, 99u8, 97u8, 108u8, 108u8, 32u8, 102u8, 117u8, 110u8, 99u8, 116u8, 105u8, 111u8, 110u8, 115u8, 32u8, 97u8, 110u8, 100u8, 32u8, 99u8, 108u8, 97u8, 115u8, 115u8, 101u8, 115u8];
    proof {
        assert(r@ =~= s_not_callable());
    }
    r
}

/// `"Expected "`
pub open spec fn s_expected_prefix() -> Seq<u8> {
    seq![69u8, 120u8, 112u8, 101u8, 99u8, 116u8, 101u8, 100u8, 32u8]
}

/// `"Expected "`
pub fn t_expected_prefix() -> (r: Vec<u8>)
    ensures
        r@ == s_expected_prefix(),
{
    let r: Vec<u8> = vec![69u8, 120u8, 112u8, 101u8, 99u8, 116u8, 101u8, 100u8, 32u8];
    proof {
        assert(r@ =~= s_expected_prefix());
    }
    r
}

/// `" arguments but got "`
pub open spec fn s_arguments_but_got() -> Seq<u8> {
    seq![32u8, 97u8, 114u8, 103u8, 117u8, 109u8, 101u8, 110u8, 116u8, 115u8, 32u8, 98u8, 117u8, 116u8, 32u8, 103u8, 111u8, 116u8, 32u8]
}

/// `" arguments but got "`
pub fn t_arguments_but_got() -> (r: Vec<u8>)
    ensures
        r@ == s_arguments_but_got(),
{
    let r: Vec<u8> = vec![32u8, 97u8, 114u8, 103u8, 117u8, 109u8, 101u8, 110u8, 116u8, 115u8, 32u8, 98u8, 117u8, 116u8, 32u8, 103u8, 111u8, 116u8, 32u8];
    proof {
        assert(r@ =~= s_arguments_but_got());
    }
    r
}

/// `"Step limit exceeded"`
pub open spec fn s_step_limit() -> Seq<u8> {
    seq![83u8, 116u8, 101u8, 112u8, 32u8, 108u8, 105u8, 109u8, 105u8, 116u8, 32u8, 101u8, 120u8, 99u8, 101u8, 101u8, 100u8, 101u8, 100u8]
}

/// `"Step limit exceeded"`
pub fn t_step_limit() -> (r: Vec<u8>)
    ensures
        r@ == s_step_limit(),
{
    let r: Vec<u8> = vec![83u8, 116u8, 101u8, 112u8, 32u8, 108u8, 105u8, 109u8, 105u8, 116u8, 32u8, 101u8, 120u8, 99u8, 101u8, 101u8, 100u8, 101u8, 100u8];
    proof {
        assert(r@ =~= s_step_limit());
    }
    r
}

/// `"No tokens provided"`
pub open spec fn s_no_tokens() -> Seq<u8> {
    seq![78u8, 111u8, 32u8, 116u8, 111u8, 107u8, 101u8, 110u8, 115u8, 32u8, 112u8, 114u8, 111u8, 118u8, 105u8, 100u8, 101u8, 100u8]
}

/// `"No tokens provided"`
pub fn t_no_tokens() -> (r: Vec<u8>)
    ensures
        r@ == s_no_tokens(),
{
    let r: Vec<u8> = vec![78u8, 111u8, 32u8, 116u8, 111u8, 107u8, 101u8, 110u8, 115u8, 32u8, 112u8, 114u8, 111u8, 118u8, 105u8, 100u8, 101u8, 100u8];
    proof {
        assert(r@ =~= s_no_tokens());
    }
    r
}

/// `"Expect variable name"`
pub open spec fn s_expect_variable_name() -> Seq<u8> {
    seq![69u8, 120u8, 112u8, 101u8, 99u8, 116u8, 32u8, 118u8, 97u8, 114u8, 105u8, 97u8, 98u8, 108u8, 101u8, 32u8, 110u8, 97u8, 109u8, 101u8]
}

/// `"Expect variable name"`
pub fn t_expect_variable_name() -> (r: Vec<u8>)
    ensures
        r@ == s_expect_variable_name(),
{
    let r: Vec<u8> = vec![69u8, 120u8, 112u8, 101u8, 99u8, 116u8, 32u8, 118u8, 97u8, 114u8, 105u8, 97u8, 98u8, 108u8, 101u8, 32u8, 110u8, 97u8, 109u8, 101u8];
    proof {
        assert(r@ =~= s_expect_variable_name());
    }
    r
}

/// `"Expect ';' after variable declaration"`
pub open spec fn s_expect_semicolon_after_var() -> Seq<u8> {
    seq![69u8, 120u8, 112u8, 101u8, 99u8, 116u8, 32u8, 39u8, 59u8, 39u8, 32u8, 97u8, 102u8, 116u8, 101u8, 114u8, 32u8, 118u8, 97u8, 114u8, 105u8, 97u8, 98u8, 108u8, 101u8, 32u8, 100u8, 101u8, 99u8, 108u8, 97u8, 114u8, 97u8, 116u8, 105u8, 111u8, 110u8]
}

/// `"Expect ';' after variable declaration"`
pub fn t_expect_semicolon_after_var() -> (r: Vec<u8>)
    ensures
        r@ == s_expect_semicolon_after_var(),
{
    let r: Vec<u8> = vec![69u8, 120u8, 112u8, 101u8, 99u8, 116u8, 32u8, 39u8, 59u8, 39u8, 32u8, 97u8, 102u8, 116u8, 101u8, 114u8, 32u8, 118u8, 97u8, 114u8, 105u8, 97u8, 98u8, 108u8, 101u8, 32u8, 100u8, 101u8, 99u8, 108u8, 97u8, 114u8, 97u8, 116u8, 105u8, 111u8, 110u8];
    proof {
        assert(r@ =~= s_expect_semicolon_after_var());
    }
    r
}

/// `"Expect function name"`
pub open spec fn s_expect_function_name() -> Seq<u8> {
    seq![69u8, 120u8, 112u8, 101u8, 99u8, 116u8, 32u8, 102u8, 117u8, 110u8, 99u8, 116u8, 105u8, 111u8, 110u8, 32u8, 110u8, 97u8, 109u8, 101u8]
}

/// `"Expect function name"`
pub fn t_expect_function_name() -> (r: Vec<u8>)
    ensures
        r@ == s_expect_function_name(),
{
    let r: Vec<u8> = vec![69u8, 120u8, 112u8, 101u8, 99u8, 116u8, 32u8, 102u8, 117u8, 110u8, 99u8, 116u8, 105u8, 111u8, 110u8, 32u8, 110u8, 97u8, 109u8, 101u8];
    proof {
        assert(r@ =~= s_expect_function_name());
    }
    r
}

/// `"Expect '(' after function name"`
pub open spec fn s_expect_lparen_after_fun_name() -> Seq<u8> {
    seq![69u8, 120u8, 112u8, 101u8, 99u8, 116u8, 32u8, 39u8, 40u8, 39u8, 32u8, 97u8, 102u8, 116u8, 101u8, 114u8, 32u8, 102u8, 117u8, 110u8, 99u8, 116u8, 105u8, 111u8, 110u8, 32u8, 110u8, 97u8, 109u8, 101u8]
}

/// `"Expect '(' after function name"`
pub fn t_expect_lparen_after_fun_name() -> (r: Vec<u8>)
    ensures
        r@ == s_expect_lparen_after_fun_name(),
{
    let r: Vec<u8> = vec![69u8, 120u8, 112u8, 101u8, 99u8, 116u8, 32u8, 39u8, 40u8, 39u8, 32u8, 97u8, 102u8, 116u8, 101u8, 114u8, 32u8, 102u8, 117u8, 110u8, 99u8, 116u8, 105u8, 111u8, 110u8, 32u8, 110u8, 97u8, 109u8, 101u8];
    proof {
        assert(r@ =~= s_expect_lparen_after_fun_name());
    }
    r
}

/// `"Can't have more than 255 parameters"`
pub open spec fn s_too_many_params() -> Seq<u8> {
    seq![67u8, 97u8, 110u8, 39u8, 116u8, 32u8, 104u8, 97u8, 118u8, 101u8, 32u8, 109u8, 111u8, 114u8, 101u8, 32u8, 116u8, 104u8, 97u8, 110u8, 32u8, 50u8, 53u8, 53u8, 32u8, 112u8, 97u8, 114u8, 97u8, 109u8, 101u8, 116u8, 101u8, 114u8, 115u8]
}

/// `"Can't have more than 255 parameters"`
pub fn t_too_many_params() -> (r: Vec<u8>)
    ensures
        r@ == s_too_many_params(),
{
    let r: Vec<u8> = vec![67u8, 97u8, 110u8, 39u8, 116u8, 32u8, 104u8, 97u8, 118u8, 101u8, 32u8, 109u8, 111u8, 114u8, 101u8, 32u8, 116u8, 104u8, 97u8, 110u8, 32u8, 50u8, 53u8, 53u8, 32u8, 112u8, 97u8, 114u8, 97u8, 109u8, 101u8, 116u8, 101u8, 114u8, 115u8];
    proof {
        assert(r@ =~= s_too_many_params());
    }
    r
}

/// `"Expect parameter name"`
pub open spec fn s_expect_param_name() -> Seq<u8> {
    seq![69u8, 120u8, 112u8, 101u8, 99u8, 116u8, 32u8, 112u8, 97u8, 114u8, 97u8, 109u8, 101u8, 116u8, 101u8, 114u8, 32u8, 110u8, 97u8, 109u8, 101u8]
}

/// `"Expect parameter name"`
pub fn t_expect_param_name() -> (r: Vec<u8>)
    ensures
        r@ == s_expect_param_name(),
{
    let r: Vec<u8> = vec![69u8, 120u8, 112u8, 101u8, 99u8, 116u8, 32u8, 112u8, 97u8, 114u8, 97u8, 109u8, 101u8, 116u8, 101u8, 114u8, 32u8, 110u8, 97u8, 109u8, 101u8];
    proof {
        assert(r@ =~= s_expect_param_name());
    }
    r
}

/// `"Expect ')' after parameters"`
pub open spec fn s_expect_rparen_after_params() -> Seq<u8> {
    seq![69u8, 120u8, 112u8, 101u8, 99u8, 116u8, 32u8, 39u8, 41u8, 39u8, 32u8, 97u8, 102u8, 116u8, 101u8, 114u8, 32u8, 112u8, 97u8, 114u8, 97u8, 109u8, 101u8, 116u8, 101u8, 114u8, 115u8]
}

/// `"Expect ')' after parameters"`
pub fn t_expect_rparen_after_params() -> (r: Vec<u8>)
    ensures
        r@ == s_expect_rparen_after_params(),
{
    let r: Vec<u8> = vec![69u8, 120u8, 112u8, 101u8, 99u8, 116u8, 32u8, 39u8, 41u8, 39u8, 32u8, 97u8, 102u8, 116u8, 101u8, 114u8, 32u8, 112u8, 97u8, 114u8, 97u8, 109u8, 101u8, 116u8, 101u8, 114u8, 115u8];
    proof {
        assert(r@ =~= s_expect_rparen_after_params());
    }
    r
}

/// `"Expect '{' before function body"`
pub open spec fn s_expect_lbrace_before_body() -> Seq<u8> {
    seq![69u8, 120u8, 112u8, 101u8, 99u8, 116u8, 32u8, 39u8, 123u8, 39u8, 32u8, 98u8, 101u8, 102u8, 111u8, 114u8, 101u8, 32u8, 102u8, 117u8, 110u8, 99u8, 116u8, 105u8, 111u8, 110u8, 32u8, 98u8, 111u8, 100u8, 121u8]
}

/// `"Expect '{' before function body"`
pub fn t_expect_lbrace_before_body() -> (r: Vec<u8>)
    ensures
        r@ == s_expect_lbrace_before_body(),
{
    let r: Vec<u8> = vec![69u8, 120u8, 112u8, 101u8, 99u8, 116u8, 32u8, 39u8, 123u8, 39u8, 32u8, 98u8, 101u8, 102u8, 111u8, 114u8, 101u8, 32u8, 102u8, 117u8, 110u8, 99u8, 116u8, 105u8, 111u8, 110u8, 32u8, 98u8, 111u8, 100u8, 121u8];
    proof {
        assert(r@ =~= s_expect_lbrace_before_body());
    }
    r
}

/// `"Expect '(' after 'for'"`
pub open spec fn s_expect_lparen_after_for() -> Seq<u8> {
    seq![69u8, 120u8, 112u8, 101u8, 99u8, 116u8, 32u8, 39u8, 40u8, 39u8, 32u8, 97u8, 102u8, 116u8, 101u8, 114u8, 32u8, 39u8, 102u8, 111u8, 114u8, 39u8]
}

/// `"Expect '(' after 'for'"`
pub fn t_expect_lparen_after_for() -> (r: Vec<u8>)
    ensures
        r@ == s_expect_lparen_after_for(),
{
    let r: Vec<u8> = vec![69u8, 120u8, 112u8, 101u8, 99u8, 116u8, 32u8, 39u8, 40u8, 39u8, 32u8, 97u8, 102u8, 116u8, 101u8, 114u8, 32u8, 39u8, 102u8, 111u8, 114u8, 39u8];
    proof {
        assert(r@ =~= s_expect_lparen_after_for());
    }
    r
}

/// `"Expect ';' after loop condition"`
pub open spec fn s_expect_semicolon_after_loop_cond() -> Seq<u8> {
    seq![69u8, 120u8, 112u8, 101u8, 99u8, 116u8, 32u8, 39u8, 59u8, 39u8, 32u8, 97u8, 102u8, 116u8, 101u8, 114u8, 32u8, 108u8, 111u8, 111u8, 112u8, 32u8, 99u8, 111u8, 110u8, 100u8, 105u8, 116u8, 105u8, 111u8, 110u8]
}

/// `"Expect ';' after loop condition"`
pub fn t_expect_semicolon_after_loop_cond() -> (r: Vec<u8>)
    ensures
        r@ == s_expect_semicolon_after_loop_cond(),
{
    let r: Vec<u8> = vec![69u8, 120u8, 112u8, 101u8, 99u8, 116u8, 32u8, 39u8, 59u8, 39u8, 32u8, 97u8, 102u8, 116u8, 101u8, 114u8, 32u8, 108u8, 111u8, 111u8, 112u8, 32u8, 99u8, 111u8, 110u8, 100u8, 105u8, 116u8, 105u8, 111u8, 110u8];
    proof {
        assert(r@ =~= s_expect_semicolon_after_loop_cond());
    }
    r
}

/// `"Expect ')' after for clauses"`
pub open spec fn s_expect_rparen_after_for() -> Seq<u8> {
    seq![69u8, 120u8, 112u8, 101u8, 99u8, 116u8, 32u8, 39u8, 41u8, 39u8, 32u8, 97u8, 102u8, 116u8, 101u8, 114u8, 32u8, 102u8, 111u8, 114u8, 32u8, 99u8, 108u8, 97u8, 117u8, 115u8, 101u8, 115u8]
}

/// `"Expect ')' after for clauses"`
pub fn t_expect_rparen_after_for() -> (r: Vec<u8>)
    ensures
        r@ == s_expect_rparen_after_for(),
{
    let r: Vec<u8> = vec![69u8, 120u8, 112u8, 101u8, 99u8, 116u8, 32u8, 39u8, 41u8, 39u8, 32u8, 97u8, 102u8, 116u8, 101u8, 114u8, 32u8, 102u8, 111u8, 114u8, 32u8, 99u8, 108u8, 97u8, 117u8, 115u8, 101u8, 115u8];
    proof {
        assert(r@ =~= s_expect_rparen_after_for());
    }
    r
}

/// `"Expect '(' after 'if'"`
pub open spec fn s_expect_lparen_after_if() -> Seq<u8> {
    seq![69u8, 120u8, 112u8, 101u8, 99u8, 116u8, 32u8, 39u8, 40u8, 39u8, 32u8, 97u8, 102u8, 116u8, 101u8, 114u8, 32u8, 39u8, 105u8, 102u8, 39u8]
}

/// `"Expect '(' after 'if'"`
pub fn t_expect_lparen_after_if() -> (r: Vec<u8>)
    ensures
        r@ == s_expect_lparen_after_if(),
{
    let r: Vec<u8> = vec![69u8, 120u8, 112u8, 101u8, 99u8, 116u8, 32u8, 39u8, 40u8, 39u8, 32u8, 97u8, 102u8, 116u8, 101u8, 114u8, 32u8, 39u8, 105u8, 102u8, 39u8];
    proof {
        assert(r@ =~= s_expect_lparen_after_if());
    }
    r
}

/// `"Expect ')' after if condition"`
pub open spec fn s_expect_rparen_after_cond() -> Seq<u8> {
    seq![69u8, 120u8, 112u8, 101u8, 99u8, 116u8, 32u8, 39u8, 41u8, 39u8, 32u8, 97u8, 102u8, 116u8, 101u8, 114u8, 32u8, 105u8, 102u8, 32u8, 99u8, 111u8, 110u8, 100u8, 105u8, 116u8, 105u8, 111u8, 110u8]
}

/// `"Expect ')' after if condition"`
pub fn t_expect_rparen_after_cond() -> (r: Vec<u8>)
    ensures
        r@ == s_expect_rparen_after_cond(),
{
    let r: Vec<u8> = vec![69u8, 120u8, 112u8, 101u8, 99u8, 116u8, 32u8, 39u8, 41u8, 39u8, 32u8, 97u8, 102u8, 116u8, 101u8, 114u8, 32u8, 105u8, 102u8, 32u8, 99u8, 111u8, 110u8, 100u8, 105u8, 116u8, 105u8, 111u8, 110u8];
    proof {
        assert(r@ =~= s_expect_rparen_after_cond());
    }
    r
}

/// `"Expect '(' after 'while'"`
pub open spec fn s_expect_lparen_after_while() -> Seq<u8> {
    seq![69u8, 120u8, 112u8, 101u8, 99u8, 116u8, 32u8, 39u8, 40u8, 39u8, 32u8, 97u8, 102u8, 116u8, 101u8, 114u8, 32u8, 39u8, 119u8, 104u8, 105u8, 108u8, 101u8, 39u8]
}

/// `"Expect '(' after 'while'"`
pub fn t_expect_lparen_after_while() -> (r: Vec<u8>)
    ensures
        r@ == s_expect_lparen_after_while(),
{
    let r: Vec<u8> = vec![69u8, 120u8, 112u8, 101u8, 99u8, 116u8, 32u8, 39u8, 40u8, 39u8, 32u8, 97u8, 102u8, 116u8, 101u8, 114u8, 32u8, 39u8, 119u8, 104u8, 105u8, 108u8, 101u8, 39u8];
    proof {
        assert(r@ =~= s_expect_lparen_after_while());
    }
    r
}

/// `"Expect ';' after return value"`
pub open spec fn s_expect_semicolon_after_return() -> Seq<u8> {
    seq![69u8, 120u8, 112u8, 101u8, 99u8, 116u8, 32u8, 39u8, 59u8, 39u8, 32u8, 97u8, 102u8, 116u8, 101u8, 114u8, 32u8, 114u8, 101u8, 116u8, 117u8, 114u8, 110u8, 32u8, 118u8, 97u8, 108u8, 117u8, 101u8]
}

/// `"Expect ';' after return value"`
pub fn t_expect_semicolon_after_return() -> (r: Vec<u8>)
    ensures
        r@ == s_expect_semicolon_after_return(),
{
    let r: Vec<u8> = vec![69u8, 120u8, 112u8, 101u8, 99u8, 116u8, 32u8, 39u8, 59u8, 39u8, 32u8, 97u8, 102u8, 116u8, 101u8, 114u8, 32u8, 114u8, 101u8, 116u8, 117u8, 114u8, 110u8, 32u8, 118u8, 97u8, 108u8, 117u8, 101u8];
    proof {
        assert(r@ =~= s_expect_semicolon_after_return());
    }
    r
}

/// `"Expect ';' after value"`
pub open spec fn s_expect_semicolon_after_value() -> Seq<u8> {
    seq![69u8, 120u8, 112u8, 101u8, 99u8, 116u8, 32u8, 39u8, 59u8, 39u8, 32u8, 97u8, 102u8, 116u8, 101u8, 114u8, 32u8, 118u8, 97u8, 108u8, 117u8, 101u8]
}

/// `"Expect ';' after value"`
pub fn t_expect_semicolon_after_value() -> (r: Vec<u8>)
    ensures
        r@ == s_expect_semicolon_after_value(),
{
    let r: Vec<u8> = vec![69u8, 120u8, 112u8, 101u8, 99u8, 116u8, 32u8, 39u8, 59u8, 39u8, 32u8, 97u8, 102u8, 116u8, 101u8, 114u8, 32u8, 118u8, 97u8, 108u8, 117u8, 101u8];
    proof {
        assert(r@ =~= s_expect_semicolon_after_value());
    }
    r
}

/// `"Expect '}' after block"`
pub open spec fn s_expect_rbrace_after_block() -> Seq<u8> {
    seq![69u8, 120u8, 112u8, 101u8, 99u8, 116u8, 32u8, 39u8, 125u8, 39u8, 32u8, 97u8, 102u8, 116u8, 101u8, 114u8, 32u8, 98u8, 108u8, 111u8, 99u8, 107u8]
}

/// `"Expect '}' after block"`
pub fn t_expect_rbrace_after_block() -> (r: Vec<u8>)
    ensures
        r@ == s_expect_rbrace_after_block(),
{
    let r: Vec<u8> = vec![69u8, 120u8, 112u8, 101u8, 99u8, 116u8, 32u8, 39u8, 125u8, 39u8, 32u8, 97u8, 102u8, 116u8, 101u8, 114u8, 32u8, 98u8, 108u8, 111u8, 99u8, 107u8];
    proof {
        assert(r@ =~= s_expect_rbrace_after_block());
    }
    r
}

/// `"Expect ';' after expression"`
pub open spec fn s_expect_semicolon_after_expression() -> Seq<u8> {
    seq![69u8, 120u8, 112u8, 101u8, 99u8, 116u8, 32u8, 39u8, 59u8, 39u8, 32u8, 97u8, 102u8, 116u8, 101u8, 114u8, 32u8, 101u8, 120u8, 112u8, 114u8, 101u8, 115u8, 115u8, 105u8, 111u8, 110u8]
}

/// `"Expect ';' after expression"`
pub fn t_expect_semicolon_after_expression() -> (r: Vec<u8>)
    ensures
        r@ == s_expect_semicolon_after_expression(),
{
    let r: Vec<u8> = vec![69u8, 120u8, 112u8, 101u8, 99u8, 116u8, 32u8, 39u8, 59u8, 39u8, 32u8, 97u8, 102u8, 116u8, 101u8, 114u8, 32u8, 101u8, 120u8, 112u8, 114u8, 101u8, 115u8, 115u8, 105u8, 111u8, 110u8];
    proof {
        assert(r@ =~= s_expect_semicolon_after_expression());
    }
    r
}

/// `"Invalid assignment target"`
pub open spec fn s_invalid_assignment_target() -> Seq<u8> {
    seq![73u8, 110u8, 118u8, 97u8, 108u8, 105u8, 100u8, 32u8, 97u8, 115u8, 115u8, 105u8, 103u8, 110u8, 109u8, 101u8, 110u8, 116u8, 32u8, 116u8, 97u8, 114u8, 103u8, 101u8, 116u8]
}

/// `"Invalid assignment target"`
pub fn t_invalid_assignment_target() -> (r: Vec<u8>)
    ensures
        r@ == s_invalid_assignment_target(),
{
    let r: Vec<u8> = vec![73u8, 110u8, 118u8, 97u8, 108u8, 105u8, 100u8, 32u8, 97u8, 115u8, 115u8, 105u8, 103u8, 110u8, 109u8, 101u8, 110u8, 116u8, 32u8, 116u8, 97u8, 114u8, 103u8, 101u8, 116u8];
    proof {
        assert(r@ =~= s_invalid_assignment_target());
    }
    r
}

/// `"Can't have more than 255 arguments"`
pub open spec fn s_too_many_arguments() -> Seq<u8> {
    seq![67u8, 97u8, 110u8, 39u8, 116u8, 32u8, 104u8, 97u8, 118u8, 101u8, 32u8, 109u8, 111u8, 114u8, 101u8, 32u8, 116u8, 104u8, 97u8, 110u8, 32u8, 50u8, 53u8, 53u8, 32u8, 97u8, 114u8, 103u8, 117u8, 109u8, 101u8, 110u8, 116u8, 115u8]
}

/// `"Can't have more than 255 arguments"`
pub fn t_too_many_arguments() -> (r: Vec<u8>)
    ensures
        r@ == s_too_many_arguments(),
{
    let r: Vec<u8> = vec![67u8, 97u8, 110u8, 39u8, 116u8, 32u8, 104u8, 97u8, 118u8, 101u8, 32u8, 109u8, 111u8, 114u8, 101u8, 32u8, 116u8, 104u8, 97u8, 110u8, 32u8, 50u8, 53u8, 53u8, 32u8, 97u8, 114u8, 103u8, 117u8, 109u8, 101u8, 110u8, 116u8, 115u8];
    proof {
        assert(r@ =~= s_too_many_arguments());
    }
    r
}

/// `"Expect ')' after expression"`
pub open spec fn s_expect_rparen_after_expression() -> Seq<u8> {
    seq![69u8, 120u8, 112u8, 101u8, 99u8, 116u8, 32u8, 39u8, 41u8, 39u8, 32u8, 97u8, 102u8, 116u8, 101u8, 114u8, 32u8, 101u8, 120u8, 112u8, 114u8, 101u8, 115u8, 115u8, 105u8, 111u8, 110u8]
}

/// `"Expect ')' after expression"`
pub fn t_expect_rparen_after_expression() -> (r: Vec<u8>)
    ensures
        r@ == s_expect_rparen_after_expression(),
{
    let r: Vec<u8> = vec![69u8, 120u8, 112u8, 101u8, 99u8, 116u8, 32u8, 39u8, 41u8, 39u8, 32u8, 97u8, 102u8, 116u8, 101u8, 114u8, 32u8, 101u8, 120u8, 112u8, 114u8, 101u8, 115u8, 115u8, 105u8, 111u8, 110u8];
    proof {
        assert(r@ =~= s_expect_rparen_after_expression());
    }
    r
}

/// `"Expect ')' after arguments"`
pub open spec fn s_expect_rparen_after_arguments() -> Seq<u8> {
    seq![69u8, 120u8, 112u8, 101u8, 99u8, 116u8, 32u8, 39u8, 41u8, 39u8, 32u8, 97u8, 102u8, 116u8, 101u8, 114u8, 32u8, 97u8, 114u8, 103u8, 117u8, 109u8, 101u8, 110u8, 116u8, 115u8]
}

/// `"Expect ')' after arguments"`
pub fn t_expect_rparen_after_arguments() -> (r: Vec<u8>)
    ensures
        r@ == s_expect_rparen_after_arguments(),
{
    let r: Vec<u8> = vec![69u8, 120u8, 112u8, 101u8, 99u8, 116u8, 32u8, 39u8, 41u8, 39u8, 32u8, 97u8, 102u8, 116u8, 101u8, 114u8, 32u8, 97u8, 114u8, 103u8, 117u8, 109u8, 101u8, 110u8, 116u8, 115u8];
    proof {
        assert(r@ =~= s_expect_rparen_after_arguments());
    }
    r
}

/// `"Expect expression"`
pub open spec fn s_expect_expression() -> Seq<u8> {
    seq![69u8, 120u8, 112u8, 101u8, 99u8, 116u8, 32u8, 101u8, 120u8, 112u8, 114u8, 101u8, 115u8, 115u8, 105u8, 111u8, 110u8]
}

/// `"Expect expression"`
pub fn t_expect_expression() -> (r: Vec<u8>)
    ensures
        r@ == s_expect_expression(),
{
    let r: Vec<u8> = vec![69u8, 120u8, 112u8, 101u8, 99u8, 116u8, 32u8, 101u8, 120u8, 112u8, 114u8, 101u8, 115u8, 115u8, 105u8, 111u8, 110u8];
    proof {
        assert(r@ =~= s_expect_expression());
    }
    r
}

/// `"Already a variable with this name in this scope"`
pub open spec fn s_already_declared() -> Seq<u8> {
    seq![65u8, 108u8, 114u8, 101u8, 97u8, 100u8, 121u8, 32u8, 97u8, 32u8, 118u8, 97u8, 114u8, 105u8, 97u8, 98u8, 108u8, 101u8, 32u8, 119u8, 105u8, 116u8, 104u8, 32u8, 116u8, 104u8, 105u8, 115u8, 32u8, 110u8, 97u8, 109u8, 101u8, 32u8, 105u8, 110u8, 32u8, 116u8, 104u8, 105u8, 115u8, 32u8, 115u8, 99u8, 111u8, 112u8, 101u8]
}

/// `"Already a variable with this name in this scope"`
pub fn t_already_declared() -> (r: Vec<u8>)
    ensures
        r@ == s_already_declared(),
{
    let r: Vec<u8> = vec![65u8, 108u8, 114u8, 101u8, 97u8, 100u8, 121u8, 32u8, 97u8, 32u8, 118u8, 97u8, 114u8, 105u8, 97u8, 98u8, 108u8, 101u8, 32u8, 119u8, 105u8, 116u8, 104u8, 32u8, 116u8, 104u8, 105u8, 115u8, 32u8, 110u8, 97u8, 109u8, 101u8, 32u8, 105u8, 110u8, 32u8, 116u8, 104u8, 105u8, 115u8, 32u8, 115u8, 99u8, 111u8, 112u8, 101u8];
    proof {
        assert(r@ =~= s_already_declared());
    }
    r
}

/// `"Can't return from top-level code"`
pub open spec fn s_return_from_top_level() -> Seq<u8> {
    seq![67u8, 97u8, 110u8, 39u8, 116u8, 32u8, 114u8, 101u8, 116u8, 117u8, 114u8, 110u8, 32u8, 102u8, 114u8, 111u8, 109u8, 32u8, 116u8, 111u8, 112u8, 45u8, 108u8, 101u8, 118u8, 101u8, 108u8, 32u8, 99u8, 111u8, 100u8, 101u8]
}

/// `"Can't return from top-level code"`
pub fn t_return_from_top_level() -> (r: Vec<u8>)
    ensures
        r@ == s_return_from_top_level(),
{
    let r: Vec<u8> = vec![67u8, 97u8, 110u8, 39u8, 116u8, 32u8, 114u8, 101u8, 116u8, 117u8, 114u8, 110u8, 32u8, 102u8, 114u8, 111u8, 109u8, 32u8, 116u8, 111u8, 112u8, 45u8, 108u8, 101u8, 118u8, 101u8, 108u8, 32u8, 99u8, 111u8, 100u8, 101u8];
    proof {
        assert(r@ =~= s_return_from_top_level());
    }
    r
}

/// `"Can't read local variable in its own initializer"`
pub open spec fn s_self_initializer() -> Seq<u8> {
    seq![67u8, 97u8, 110u8, 39u8, 116u8, 32u8, 114u8, 101u8, 97u8, 100u8, 32u8, 108u8, 111u8, 99u8, 97u8, 108u8, 32u8, 118u8, 97u8, 114u8, 105u8, 97u8, 98u8, 108u8, 101u8, 32u8, 105u8, 110u8, 32u8, 105u8, 116u8, 115u8, 32u8, 111u8, 119u8, 110u8, 32u8, 105u8, 110u8, 105u8, 116u8, 105u8, 97u8, 108u8, 105u8, 122u8, 101u8, 114u8]
}

/// `"Can't read local variable in its own initializer"`
pub fn t_self_initializer() -> (r: Vec<u8>)
    ensures
        r@ == s_self_initializer(),
{
    let r: Vec<u8> = vec![67u8, 97u8, 110u8, 39u8, 116u8, 32u8, 114u8, 101u8, 97u8, 100u8, 32u8, 108u8, 111u8, 99u8, 97u8, 108u8, 32u8, 118u8, 97u8, 114u8, 105u8, 97u8, 98u8, 108u8, 101u8, 32u8, 105u8, 110u8, 32u8, 105u8, 116u8, 115u8, 32u8, 111u8, 119u8, 110u8, 32u8, 105u8, 110u8, 105u8, 116u8, 105u8, 97u8, 108u8, 105u8, 122u8, 101u8, 114u8];
    proof {
        assert(r@ =~= s_self_initializer());
    }
    r
}

/// `"Unterminated string at line "`
pub open spec fn s_unterminated_string() -> Seq<u8> {
    seq![85u8, 110u8, 116u8, 101u8, 114u8, 109u8, 105u8, 110u8, 97u8, 116u8, 101u8, 100u8, 32u8, 115u8, 116u8, 114u8, 105u8, 110u8, 103u8, 32u8, 97u8, 116u8, 32u8, 108u8, 105u8, 110u8, 101u8, 32u8]
}

/// `"Unterminated string at line "`
pub fn t_unterminated_string() -> (r: Vec<u8>)
    ensures
        r@ == s_unterminated_string(),
{
    let r: Vec<u8> = vec![85u8, 110u8, 116u8, 101u8, 114u8, 109u8, 105u8, 110u8, 97u8, 116u8, 101u8, 100u8, 32u8, 115u8, 116u8, 114u8, 105u8, 110u8, 103u8, 32u8, 97u8, 116u8, 32u8, 108u8, 105u8, 110u8, 101u8, 32u8];
    proof {
        assert(r@ =~= s_unterminated_string());
    }
    r
}

/// `"scanner can't handle "`
pub open spec fn s_unknown_character() -> Seq<u8> {
    seq![115u8, 99u8, 97u8, 110u8, 110u8, 101u8, 114u8, 32u8, 99u8, 97u8, 110u8, 39u8, 116u8, 32u8, 104u8, 97u8, 110u8, 100u8, 108u8, 101u8, 32u8]
}

/// `"scanner can't handle "`
pub fn t_unknown_character() -> (r: Vec<u8>)
    ensures
        r@ == s_unknown_character(),
{
    let r: Vec<u8> = vec![115u8, 99u8, 97u8, 110u8, 110u8, 101u8, 114u8, 32u8, 99u8, 97u8, 110u8, 39u8, 116u8, 32u8, 104u8, 97u8, 110u8, 100u8, 108u8, 101u8, 32u8];
    proof {
        assert(r@ =~= s_unknown_character());
    }
    r
}

/// `" at end"`
pub open spec fn s_at_end() -> Seq<u8> {
    seq![32u8, 97u8, 116u8, 32u8, 101u8, 110u8, 100u8]
}

/// `" at end"`
pub fn t_at_end() -> (r: Vec<u8>)
    ensures
        r@ == s_at_end(),
{
    let r: Vec<u8> = vec![32u8, 97u8, 116u8, 32u8, 101u8, 110u8, 100u8];
    proof {
        assert(r@ =~= s_at_end());
    }
    r
}

/// `" at '"`
pub open spec fn s_at_quote() -> Seq<u8> {
    seq![32u8, 97u8, 116u8, 32u8, 39u8]
}

/// `" at '"`
pub fn t_at_quote() -> (r: Vec<u8>)
    ensures
        r@ == s_at_quote(),
{
    let r: Vec<u8> = vec![32u8, 97u8, 116u8, 32u8, 39u8];
    proof {
        assert(r@ =~= s_at_quote());
    }
    r
}

/// `"[line "`
pub open spec fn s_line_open() -> Seq<u8> {
    seq![91u8, 108u8, 105u8, 110u8, 101u8, 32u8]
}

/// `"[line "`
pub fn t_line_open() -> (r: Vec<u8>)
    ensures
        r@ == s_line_open(),
{
    let r: Vec<u8> = vec![91u8, 108u8, 105u8, 110u8, 101u8, 32u8];
    proof {
        assert(r@ =~= s_line_open());
    }
    r
}

/// `", col "`
pub open spec fn s_col_sep() -> Seq<u8> {
    seq![44u8, 32u8, 99u8, 111u8, 108u8, 32u8]
}

/// `", col "`
pub fn t_col_sep() -> (r: Vec<u8>)
    ensures
        r@ == s_col_sep(),
{
    let r: Vec<u8> = vec![44u8, 32u8, 99u8, 111u8, 108u8, 32u8];
    proof {
        assert(r@ =~= s_col_sep());
    }
    r
}

/// `"] "`
pub open spec fn s_bracket_close() -> Seq<u8> {
    seq![93u8, 32u8]
}

/// `"] "`
pub fn t_bracket_close() -> (r: Vec<u8>)
    ensures
        r@ == s_bracket_close(),
{
    let r: Vec<u8> = vec![93u8, 32u8];
    proof {
        assert(r@ =~= s_bracket_close());
    }
    r
}

/// `"nil"`
pub open spec fn s_nil() -> Seq<u8> {
    seq![110u8, 105u8, 108u8]
}

/// `"nil"`
pub fn t_nil() -> (r: Vec<u8>)
    ensures
        r@ == s_nil(),
{
    let r: Vec<u8> = vec![110u8, 105u8, 108u8];
    proof {
        assert(r@ =~= s_nil());
    }
    r
}

/// `"true"`
pub open spec fn s_true_text() -> Seq<u8> {
    seq![116u8, 114u8, 117u8, 101u8]
}

/// `"true"`
pub fn t_true_text() -> (r: Vec<u8>)
    ensures
        r@ == s_true_text(),
{
    let r: Vec<u8> = vec![116u8, 114u8, 117u8, 101u8];
    proof {
        assert(r@ =~= s_true_text());
    }
    r
}

/// `"false"`
pub open spec fn s_false_text() -> Seq<u8> {
    seq![102u8, 97u8, 108u8, 115u8, 101u8]
}

/// `"false"`
pub fn t_false_text() -> (r: Vec<u8>)
    ensures
        r@ == s_false_text(),
{
    let r: Vec<u8> = vec![102u8, 97u8, 108u8, 115u8, 101u8];
    proof {
        assert(r@ =~= s_false_text());
    }
    r
}

/// `"<fn "`
pub open spec fn s_fn_open() -> Seq<u8> {
    seq![60u8, 102u8, 110u8, 32u8]
}

/// `"<fn "`
pub fn t_fn_open() -> (r: Vec<u8>)
    ensures
        r@ == s_fn_open(),
{
    let r: Vec<u8> = vec![60u8, 102u8, 110u8, 32u8];
    proof {
        assert(r@ =~= s_fn_open());
    }
    r
}

/// `">"`
pub open spec fn s_gt() -> Seq<u8> {
    seq![62u8]
}

/// `">"`
pub fn t_gt() -> (r: Vec<u8>)
    ensures
        r@ == s_gt(),
{
    let r: Vec<u8> = vec![62u8];
    proof {
        assert(r@ =~= s_gt());
    }
    r
}

/// `"function"`
pub open spec fn s_native_function() -> Seq<u8> {
    seq![102u8, 117u8, 110u8, 99u8, 116u8, 105u8, 111u8, 110u8]
}

/// `"function"`
pub fn t_native_function() -> (r: Vec<u8>)
    ensures
        r@ == s_native_function(),
{
    let r: Vec<u8> = vec![102u8, 117u8, 110u8, 99u8, 116u8, 105u8, 111u8, 110u8];
    proof {
        assert(r@ =~= s_native_function());
    }
    r
}

/// `"clock"`
pub open spec fn s_clock() -> Seq<u8> {
    seq![99u8, 108u8, 111u8, 99u8, 107u8]
}

/// `"clock"`
pub fn t_clock() -> (r: Vec<u8>)
    ensures
        r@ == s_clock(),
{
    let r: Vec<u8> = vec![99u8, 108u8, 111u8, 99u8, 107u8];
    proof {
        assert(r@ =~= s_clock());
    }
    r
}

/// The decimal digits of `n`, most significant first.
pub open spec fn dec_digits(n: nat) -> Seq<u8>
    decreases n,
{
    if n < 10 {
        seq![(48 + n) as u8]
    } else {
        dec_digits(n / 10).push((48 + n % 10) as u8)
    }
}

/// Renders `n` in decimal.
pub fn u64_to_dec(n: u64) -> (r: Vec<u8>)
    ensures
        r@ == dec_digits(n as nat),
    decreases n,
{
    if n < 10 {
        let d: u8 = 48 + n as u8;
        let r: Vec<u8> = vec![d];
        proof {
            assert(r@ =~= dec_digits(n as nat));
        }
        r
    } else {
        let mut r = u64_to_dec(n / 10);
        r.push(48 + (n % 10) as u8);
        r
    }
}

/// Appends the bytes of `tail` to `out`.
pub fn append_bytes(out: &mut Vec<u8>, tail: &Vec<u8>)
    ensures
        final(out)@ == old(out)@ + tail@,
{
    let n = tail.len();
    let mut i: usize = 0;
    while i < n
        invariant
            n == tail@.len(),
            0 <= i <= n,
            out@ == old(out)@ + tail@.subrange(0, i as int),
        decreases n - i,
    {
        out.push(tail[i]);
        proof {
            assert(out@ =~= old(out)@ + tail@.subrange(0, i + 1 as int));
        }
        i += 1;
    }
    proof {
        assert(tail@.subrange(0, n as int) =~= tail@);
    }
}

} // verus!
