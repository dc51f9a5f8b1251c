//! Every template of the builtins parses, so the table of builtins always
//! builds. Each template is followed through the parser's positions
//! ([`scan_half`]) step by step.

use vstd::prelude::*;
use crate::dsl::{
    template_parses, half_template_parses, scan_half, skip_indents_spec, is_word, lemma_classify_variable,
    lemma_classify_inner, inner_word, lemma_template_parses, lemma_half_template_parses,
};
use crate::text::is_whitespace_spec;
use crate::language::builtins::{
    builtin_sources_spec, build_all, build_builtin, build_brackets, build_bracket, BuiltinSourceModel,
    BracketSourceModel,
};

verus! {

/// The template of the `group` builtin parses.
proof fn lemma_group_template()
    ensures
        template_parses("\n            const {wrapper:local} = () => {{\n                {inner}\n            "@),
{
    reveal_strlit("\n            const {wrapper:local} = () => {{\n                {inner}\n            ");
    let s = "\n            const {wrapper:local} = () => {{\n                {inner}\n            "@;
    assert(s.len() == 82);
    assert(skip_indents_spec(s, 0, 0) == (12nat, 13int)) by {
        assert(skip_indents_spec(s, 0, 0) == skip_indents_spec(s, 1, 0));
        assert(skip_indents_spec(s, 1, 0) == skip_indents_spec(s, 2, 1));
        assert(skip_indents_spec(s, 2, 1) == skip_indents_spec(s, 3, 2));
        assert(skip_indents_spec(s, 3, 2) == skip_indents_spec(s, 4, 3));
        assert(skip_indents_spec(s, 4, 3) == skip_indents_spec(s, 5, 4));
        assert(skip_indents_spec(s, 5, 4) == skip_indents_spec(s, 6, 5));
        assert(skip_indents_spec(s, 6, 5) == skip_indents_spec(s, 7, 6));
        assert(skip_indents_spec(s, 7, 6) == skip_indents_spec(s, 8, 7));
        assert(skip_indents_spec(s, 8, 7) == skip_indents_spec(s, 9, 8));
        assert(skip_indents_spec(s, 9, 8) == skip_indents_spec(s, 10, 9));
        assert(skip_indents_spec(s, 10, 9) == skip_indents_spec(s, 11, 10));
        assert(skip_indents_spec(s, 11, 10) == skip_indents_spec(s, 12, 11));
        assert(skip_indents_spec(s, 12, 11) == skip_indents_spec(s, 13, 12));
        assert(skip_indents_spec(s, 13, 12) == (12nat, 13int));
    }
    lemma_group_template_0();
    lemma_group_template_1();
    lemma_group_template_2();
    lemma_group_template_3();
    lemma_group_template_4();
}

proof fn lemma_group_template_0()
    ensures
        scan_half("\n            const {wrapper:local} = () => {{\n                {inner}\n            "@, 13, 13, false) == scan_half("\n            const {wrapper:local} = () => {{\n                {inner}\n            "@, 26, 20, true),
{
    reveal_strlit("\n            const {wrapper:local} = () => {{\n                {inner}\n            ");
    let s = "\n            const {wrapper:local} = () => {{\n                {inner}\n            "@;
    assert(scan_half(s, 13, 13, false) == scan_half(s, 14, 13, false));
    assert(scan_half(s, 14, 13, false) == scan_half(s, 15, 13, false));
    assert(scan_half(s, 15, 13, false) == scan_half(s, 16, 13, false));
    assert(scan_half(s, 16, 13, false) == scan_half(s, 17, 13, false));
    assert(scan_half(s, 17, 13, false) == scan_half(s, 18, 13, false));
    assert(scan_half(s, 18, 13, false) == scan_half(s, 19, 13, false));
    assert(scan_half(s, 19, 13, false) == scan_half(s, 21, 20, true));
    assert(scan_half(s, 21, 20, true) == scan_half(s, 22, 20, true));
    assert(scan_half(s, 22, 20, true) == scan_half(s, 23, 20, true));
    assert(scan_half(s, 23, 20, true) == scan_half(s, 24, 20, true));
    assert(scan_half(s, 24, 20, true) == scan_half(s, 25, 20, true));
    assert(scan_half(s, 25, 20, true) == scan_half(s, 26, 20, true));
}

proof fn lemma_group_template_1()
    ensures
        scan_half("\n            const {wrapper:local} = () => {{\n                {inner}\n            "@, 26, 20, true) == scan_half("\n            const {wrapper:local} = () => {{\n                {inner}\n            "@, 38, 34, false),
{
    reveal_strlit("\n            const {wrapper:local} = () => {{\n                {inner}\n            ");
    let s = "\n            const {wrapper:local} = () => {{\n                {inner}\n            "@;
    assert(scan_half(s, 26, 20, true) == scan_half(s, 27, 20, true));
    assert(scan_half(s, 27, 20, true) == scan_half(s, 28, 20, true));
    assert(scan_half(s, 28, 20, true) == scan_half(s, 29, 20, true));
    assert(scan_half(s, 29, 20, true) == scan_half(s, 30, 20, true));
    assert(scan_half(s, 30, 20, true) == scan_half(s, 31, 20, true));
    assert(scan_half(s, 31, 20, true) == scan_half(s, 32, 20, true));
    assert(scan_half(s, 32, 20, true) == scan_half(s, 33, 20, true));
    assert(s.subrange(20, 33) =~= seq!['w', 'r', 'a', 'p', 'p', 'e', 'r', ':', 'l', 'o', 'c', 'a', 'l']);
    assert(is_word(seq!['w', 'r', 'a', 'p', 'p', 'e', 'r'])) by {
        let w = seq!['w', 'r', 'a', 'p', 'p', 'e', 'r'];
        assert forall|k: int| 0 <= k < 7 implies !is_whitespace_spec(#[trigger] w[k]) && w[k] != ':' by {
            assert(k == 0 || k == 1 || k == 2 || k == 3 || k == 4 || k == 5 || k == 6);
        }
    }
    assert(is_word(seq!['l', 'o', 'c', 'a', 'l'])) by {
        let w = seq!['l', 'o', 'c', 'a', 'l'];
        assert forall|k: int| 0 <= k < 5 implies !is_whitespace_spec(#[trigger] w[k]) && w[k] != ':' by {
            assert(k == 0 || k == 1 || k == 2 || k == 3 || k == 4);
        }
    }
    lemma_classify_variable(seq!['w', 'r', 'a', 'p', 'p', 'e', 'r'], seq!['l', 'o', 'c', 'a', 'l']);
    assert(seq!['w', 'r', 'a', 'p', 'p', 'e', 'r', ':', 'l', 'o', 'c', 'a', 'l'] =~= seq!['w', 'r', 'a', 'p', 'p', 'e', 'r'] + seq![':'] + seq!['l', 'o', 'c', 'a', 'l']);
    assert(scan_half(s, 33, 20, true) == scan_half(s, 34, 34, false));
    assert(scan_half(s, 34, 34, false) == scan_half(s, 35, 34, false));
    assert(scan_half(s, 35, 34, false) == scan_half(s, 36, 34, false));
    assert(scan_half(s, 36, 34, false) == scan_half(s, 37, 34, false));
    assert(scan_half(s, 37, 34, false) == scan_half(s, 38, 34, false));
}

proof fn lemma_group_template_2()
    ensures
        scan_half("\n            const {wrapper:local} = () => {{\n                {inner}\n            "@, 38, 34, false) == scan_half("\n            const {wrapper:local} = () => {{\n                {inner}\n            "@, 68, 63, true),
{
    reveal_strlit("\n            const {wrapper:local} = () => {{\n                {inner}\n            ");
    let s = "\n            const {wrapper:local} = () => {{\n                {inner}\n            "@;
    assert(scan_half(s, 38, 34, false) == scan_half(s, 39, 34, false));
    assert(scan_half(s, 39, 34, false) == scan_half(s, 40, 34, false));
    assert(scan_half(s, 40, 34, false) == scan_half(s, 41, 34, false));
    assert(scan_half(s, 41, 34, false) == scan_half(s, 42, 34, false));
    assert(scan_half(s, 42, 34, false) == scan_half(s, 43, 34, false));
    assert(scan_half(s, 43, 34, false) == scan_half(s, 45, 44, false));
    assert(skip_indents_spec(s, 46, 0) == (16nat, 62int)) by {
        assert(skip_indents_spec(s, 46, 0) == skip_indents_spec(s, 47, 1));
        assert(skip_indents_spec(s, 47, 1) == skip_indents_spec(s, 48, 2));
        assert(skip_indents_spec(s, 48, 2) == skip_indents_spec(s, 49, 3));
        assert(skip_indents_spec(s, 49, 3) == skip_indents_spec(s, 50, 4));
        assert(skip_indents_spec(s, 50, 4) == skip_indents_spec(s, 51, 5));
        assert(skip_indents_spec(s, 51, 5) == skip_indents_spec(s, 52, 6));
        assert(skip_indents_spec(s, 52, 6) == skip_indents_spec(s, 53, 7));
        assert(skip_indents_spec(s, 53, 7) == skip_indents_spec(s, 54, 8));
        assert(skip_indents_spec(s, 54, 8) == skip_indents_spec(s, 55, 9));
        assert(skip_indents_spec(s, 55, 9) == skip_indents_spec(s, 56, 10));
        assert(skip_indents_spec(s, 56, 10) == skip_indents_spec(s, 57, 11));
        assert(skip_indents_spec(s, 57, 11) == skip_indents_spec(s, 58, 12));
        assert(skip_indents_spec(s, 58, 12) == skip_indents_spec(s, 59, 13));
        assert(skip_indents_spec(s, 59, 13) == skip_indents_spec(s, 60, 14));
        assert(skip_indents_spec(s, 60, 14) == skip_indents_spec(s, 61, 15));
        assert(skip_indents_spec(s, 61, 15) == skip_indents_spec(s, 62, 16));
        assert(skip_indents_spec(s, 62, 16) == (16nat, 62int));
    }
    assert(scan_half(s, 45, 44, false) == scan_half(s, 62, 62, false));
    assert(scan_half(s, 62, 62, false) == scan_half(s, 64, 63, true));
    assert(scan_half(s, 64, 63, true) == scan_half(s, 65, 63, true));
    assert(scan_half(s, 65, 63, true) == scan_half(s, 66, 63, true));
    assert(scan_half(s, 66, 63, true) == scan_half(s, 67, 63, true));
    assert(scan_half(s, 67, 63, true) == scan_half(s, 68, 63, true));
}

proof fn lemma_group_template_3()
    ensures
        scan_half("\n            const {wrapper:local} = () => {{\n                {inner}\n            "@, 68, 63, true) == Some(69int),
{
    reveal_strlit("\n            const {wrapper:local} = () => {{\n                {inner}\n            ");
    let s = "\n            const {wrapper:local} = () => {{\n                {inner}\n            "@;
    assert(s.subrange(63, 68) =~= seq!['i', 'n', 'n', 'e', 'r']);
    lemma_classify_inner();
    assert(seq!['i', 'n', 'n', 'e', 'r'] =~= inner_word());
    assert(scan_half(s, 68, 63, true) == Some(69int));
}

proof fn lemma_group_template_4()
    ensures
        scan_half("\n            const {wrapper:local} = () => {{\n                {inner}\n            "@, 69, 69, false) == Some(82int),
{
    reveal_strlit("\n            const {wrapper:local} = () => {{\n                {inner}\n            ");
    let s = "\n            const {wrapper:local} = () => {{\n                {inner}\n            "@;
    assert(skip_indents_spec(s, 70, 0) == (12nat, 82int)) by {
        assert(skip_indents_spec(s, 70, 0) == skip_indents_spec(s, 71, 1));
        assert(skip_indents_spec(s, 71, 1) == skip_indents_spec(s, 72, 2));
        assert(skip_indents_spec(s, 72, 2) == skip_indents_spec(s, 73, 3));
        assert(skip_indents_spec(s, 73, 3) == skip_indents_spec(s, 74, 4));
        assert(skip_indents_spec(s, 74, 4) == skip_indents_spec(s, 75, 5));
        assert(skip_indents_spec(s, 75, 5) == skip_indents_spec(s, 76, 6));
        assert(skip_indents_spec(s, 76, 6) == skip_indents_spec(s, 77, 7));
        assert(skip_indents_spec(s, 77, 7) == skip_indents_spec(s, 78, 8));
        assert(skip_indents_spec(s, 78, 8) == skip_indents_spec(s, 79, 9));
        assert(skip_indents_spec(s, 79, 9) == skip_indents_spec(s, 80, 10));
        assert(skip_indents_spec(s, 80, 10) == skip_indents_spec(s, 81, 11));
        assert(skip_indents_spec(s, 81, 11) == skip_indents_spec(s, 82, 12));
        assert(skip_indents_spec(s, 82, 12) == (12nat, 82int));
    }
    assert(scan_half(s, 69, 69, false) == scan_half(s, 82, 82, false));
    assert(scan_half(s, 82, 82, false) == Some(82int));
}

/// The output handler of bracket 0 of the `group` builtin parses.
proof fn lemma_group_handler_0()
    ensures
        half_template_parses("\n                        {output:local}({value:in});\n                    "@),
{
    reveal_strlit("\n                        {output:local}({value:in});\n                    ");
    let s = "\n                        {output:local}({value:in});\n                    "@;
    assert(s.len() == 73);
    assert(skip_indents_spec(s, 0, 0) == (24nat, 25int)) by {
        assert(skip_indents_spec(s, 0, 0) == skip_indents_spec(s, 1, 0));
        assert(skip_indents_spec(s, 1, 0) == skip_indents_spec(s, 2, 1));
        assert(skip_indents_spec(s, 2, 1) == skip_indents_spec(s, 3, 2));
        assert(skip_indents_spec(s, 3, 2) == skip_indents_spec(s, 4, 3));
        assert(skip_indents_spec(s, 4, 3) == skip_indents_spec(s, 5, 4));
        assert(skip_indents_spec(s, 5, 4) == skip_indents_spec(s, 6, 5));
        assert(skip_indents_spec(s, 6, 5) == skip_indents_spec(s, 7, 6));
        assert(skip_indents_spec(s, 7, 6) == skip_indents_spec(s, 8, 7));
        assert(skip_indents_spec(s, 8, 7) == skip_indents_spec(s, 9, 8));
        assert(skip_indents_spec(s, 9, 8) == skip_indents_spec(s, 10, 9));
        assert(skip_indents_spec(s, 10, 9) == skip_indents_spec(s, 11, 10));
        assert(skip_indents_spec(s, 11, 10) == skip_indents_spec(s, 12, 11));
        assert(skip_indents_spec(s, 12, 11) == skip_indents_spec(s, 13, 12));
        assert(skip_indents_spec(s, 13, 12) == skip_indents_spec(s, 14, 13));
        assert(skip_indents_spec(s, 14, 13) == skip_indents_spec(s, 15, 14));
        assert(skip_indents_spec(s, 15, 14) == skip_indents_spec(s, 16, 15));
        assert(skip_indents_spec(s, 16, 15) == skip_indents_spec(s, 17, 16));
        assert(skip_indents_spec(s, 17, 16) == skip_indents_spec(s, 18, 17));
        assert(skip_indents_spec(s, 18, 17) == skip_indents_spec(s, 19, 18));
        assert(skip_indents_spec(s, 19, 18) == skip_indents_spec(s, 20, 19));
        assert(skip_indents_spec(s, 20, 19) == skip_indents_spec(s, 21, 20));
        assert(skip_indents_spec(s, 21, 20) == skip_indents_spec(s, 22, 21));
        assert(skip_indents_spec(s, 22, 21) == skip_indents_spec(s, 23, 22));
        assert(skip_indents_spec(s, 23, 22) == skip_indents_spec(s, 24, 23));
        assert(skip_indents_spec(s, 24, 23) == skip_indents_spec(s, 25, 24));
        assert(skip_indents_spec(s, 25, 24) == (24nat, 25int));
    }
    lemma_group_handler_0_0();
    lemma_group_handler_0_1();
    lemma_group_handler_0_2();
}

proof fn lemma_group_handler_0_0()
    ensures
        scan_half("\n                        {output:local}({value:in});\n                    "@, 25, 25, false) == scan_half("\n                        {output:local}({value:in});\n                    "@, 38, 26, true),
{
    reveal_strlit("\n                        {output:local}({value:in});\n                    ");
    let s = "\n                        {output:local}({value:in});\n                    "@;
    assert(scan_half(s, 25, 25, false) == scan_half(s, 27, 26, true));
    assert(scan_half(s, 27, 26, true) == scan_half(s, 28, 26, true));
    assert(scan_half(s, 28, 26, true) == scan_half(s, 29, 26, true));
    assert(scan_half(s, 29, 26, true) == scan_half(s, 30, 26, true));
    assert(scan_half(s, 30, 26, true) == scan_half(s, 31, 26, true));
    assert(scan_half(s, 31, 26, true) == scan_half(s, 32, 26, true));
    assert(scan_half(s, 32, 26, true) == scan_half(s, 33, 26, true));
    assert(scan_half(s, 33, 26, true) == scan_half(s, 34, 26, true));
    assert(scan_half(s, 34, 26, true) == scan_half(s, 35, 26, true));
    assert(scan_half(s, 35, 26, true) == scan_half(s, 36, 26, true));
    assert(scan_half(s, 36, 26, true) == scan_half(s, 37, 26, true));
    assert(scan_half(s, 37, 26, true) == scan_half(s, 38, 26, true));
}

proof fn lemma_group_handler_0_1()
    ensures
        scan_half("\n                        {output:local}({value:in});\n                    "@, 38, 26, true) == scan_half("\n                        {output:local}({value:in});\n                    "@, 51, 50, false),
{
    reveal_strlit("\n                        {output:local}({value:in});\n                    ");
    let s = "\n                        {output:local}({value:in});\n                    "@;
    assert(s.subrange(26, 38) =~= seq!['o', 'u', 't', 'p', 'u', 't', ':', 'l', 'o', 'c', 'a', 'l']);
    assert(is_word(seq!['o', 'u', 't', 'p', 'u', 't'])) by {
        let w = seq!['o', 'u', 't', 'p', 'u', 't'];
        assert forall|k: int| 0 <= k < 6 implies !is_whitespace_spec(#[trigger] w[k]) && w[k] != ':' by {
            assert(k == 0 || k == 1 || k == 2 || k == 3 || k == 4 || k == 5);
        }
    }
    assert(is_word(seq!['l', 'o', 'c', 'a', 'l'])) by {
        let w = seq!['l', 'o', 'c', 'a', 'l'];
        assert forall|k: int| 0 <= k < 5 implies !is_whitespace_spec(#[trigger] w[k]) && w[k] != ':' by {
            assert(k == 0 || k == 1 || k == 2 || k == 3 || k == 4);
        }
    }
    lemma_classify_variable(seq!['o', 'u', 't', 'p', 'u', 't'], seq!['l', 'o', 'c', 'a', 'l']);
    assert(seq!['o', 'u', 't', 'p', 'u', 't', ':', 'l', 'o', 'c', 'a', 'l'] =~= seq!['o', 'u', 't', 'p', 'u', 't'] + seq![':'] + seq!['l', 'o', 'c', 'a', 'l']);
    assert(scan_half(s, 38, 26, true) == scan_half(s, 39, 39, false));
    assert(scan_half(s, 39, 39, false) == scan_half(s, 40, 39, false));
    assert(scan_half(s, 40, 39, false) == scan_half(s, 42, 41, true));
    assert(scan_half(s, 42, 41, true) == scan_half(s, 43, 41, true));
    assert(scan_half(s, 43, 41, true) == scan_half(s, 44, 41, true));
    assert(scan_half(s, 44, 41, true) == scan_half(s, 45, 41, true));
    assert(scan_half(s, 45, 41, true) == scan_half(s, 46, 41, true));
    assert(scan_half(s, 46, 41, true) == scan_half(s, 47, 41, true));
    assert(scan_half(s, 47, 41, true) == scan_half(s, 48, 41, true));
    assert(scan_half(s, 48, 41, true) == scan_half(s, 49, 41, true));
    assert(s.subrange(41, 49) =~= seq!['v', 'a', 'l', 'u', 'e', ':', 'i', 'n']);
    assert(is_word(seq!['v', 'a', 'l', 'u', 'e'])) by {
        let w = seq!['v', 'a', 'l', 'u', 'e'];
        assert forall|k: int| 0 <= k < 5 implies !is_whitespace_spec(#[trigger] w[k]) && w[k] != ':' by {
            assert(k == 0 || k == 1 || k == 2 || k == 3 || k == 4);
        }
    }
    assert(is_word(seq!['i', 'n'])) by {
        let w = seq!['i', 'n'];
        assert forall|k: int| 0 <= k < 2 implies !is_whitespace_spec(#[trigger] w[k]) && w[k] != ':' by {
            assert(k == 0 || k == 1);
        }
    }
    lemma_classify_variable(seq!['v', 'a', 'l', 'u', 'e'], seq!['i', 'n']);
    assert(seq!['v', 'a', 'l', 'u', 'e', ':', 'i', 'n'] =~= seq!['v', 'a', 'l', 'u', 'e'] + seq![':'] + seq!['i', 'n']);
    assert(scan_half(s, 49, 41, true) == scan_half(s, 50, 50, false));
    assert(scan_half(s, 50, 50, false) == scan_half(s, 51, 50, false));
}

proof fn lemma_group_handler_0_2()
    ensures
        scan_half("\n                        {output:local}({value:in});\n                    "@, 51, 50, false) == Some(73int),
{
    reveal_strlit("\n                        {output:local}({value:in});\n                    ");
    let s = "\n                        {output:local}({value:in});\n                    "@;
    assert(scan_half(s, 51, 50, false) == scan_half(s, 52, 50, false));
    assert(skip_indents_spec(s, 53, 0) == (20nat, 73int)) by {
        assert(skip_indents_spec(s, 53, 0) == skip_indents_spec(s, 54, 1));
        assert(skip_indents_spec(s, 54, 1) == skip_indents_spec(s, 55, 2));
        assert(skip_indents_spec(s, 55, 2) == skip_indents_spec(s, 56, 3));
        assert(skip_indents_spec(s, 56, 3) == skip_indents_spec(s, 57, 4));
        assert(skip_indents_spec(s, 57, 4) == skip_indents_spec(s, 58, 5));
        assert(skip_indents_spec(s, 58, 5) == skip_indents_spec(s, 59, 6));
        assert(skip_indents_spec(s, 59, 6) == skip_indents_spec(s, 60, 7));
        assert(skip_indents_spec(s, 60, 7) == skip_indents_spec(s, 61, 8));
        assert(skip_indents_spec(s, 61, 8) == skip_indents_spec(s, 62, 9));
        assert(skip_indents_spec(s, 62, 9) == skip_indents_spec(s, 63, 10));
        assert(skip_indents_spec(s, 63, 10) == skip_indents_spec(s, 64, 11));
        assert(skip_indents_spec(s, 64, 11) == skip_indents_spec(s, 65, 12));
        assert(skip_indents_spec(s, 65, 12) == skip_indents_spec(s, 66, 13));
        assert(skip_indents_spec(s, 66, 13) == skip_indents_spec(s, 67, 14));
        assert(skip_indents_spec(s, 67, 14) == skip_indents_spec(s, 68, 15));
        assert(skip_indents_spec(s, 68, 15) == skip_indents_spec(s, 69, 16));
        assert(skip_indents_spec(s, 69, 16) == skip_indents_spec(s, 70, 17));
        assert(skip_indents_spec(s, 70, 17) == skip_indents_spec(s, 71, 18));
        assert(skip_indents_spec(s, 71, 18) == skip_indents_spec(s, 72, 19));
        assert(skip_indents_spec(s, 72, 19) == skip_indents_spec(s, 73, 20));
        assert(skip_indents_spec(s, 73, 20) == (20nat, 73int));
    }
    assert(scan_half(s, 52, 50, false) == scan_half(s, 73, 73, false));
    assert(scan_half(s, 73, 73, false) == Some(73int));
}

/// The end fragment of bracket 0 of the `group` builtin parses.
proof fn lemma_group_bracket_0()
    ensures
        template_parses("\n                        //\n                    }};\n                    const {output:local} = ({out_var:out})=>{{\n                        {inner}\n                    }}\n\n                    {wrapper:local}();\n                "@),
{
    reveal_strlit("\n                        //\n                    }};\n                    const {output:local} = ({out_var:out})=>{{\n                        {inner}\n                    }}\n\n                    {wrapper:local}();\n                ");
    let s = "\n                        //\n                    }};\n                    const {output:local} = ({out_var:out})=>{{\n                        {inner}\n                    }}\n\n                    {wrapper:local}();\n                "@;
    assert(s.len() == 226);
    assert(skip_indents_spec(s, 0, 0) == (24nat, 25int)) by {
        assert(skip_indents_spec(s, 0, 0) == skip_indents_spec(s, 1, 0));
        assert(skip_indents_spec(s, 1, 0) == skip_indents_spec(s, 2, 1));
        assert(skip_indents_spec(s, 2, 1) == skip_indents_spec(s, 3, 2));
        assert(skip_indents_spec(s, 3, 2) == skip_indents_spec(s, 4, 3));
        assert(skip_indents_spec(s, 4, 3) == skip_indents_spec(s, 5, 4));
        assert(skip_indents_spec(s, 5, 4) == skip_indents_spec(s, 6, 5));
        assert(skip_indents_spec(s, 6, 5) == skip_indents_spec(s, 7, 6));
        assert(skip_indents_spec(s, 7, 6) == skip_indents_spec(s, 8, 7));
        assert(skip_indents_spec(s, 8, 7) == skip_indents_spec(s, 9, 8));
        assert(skip_indents_spec(s, 9, 8) == skip_indents_spec(s, 10, 9));
        assert(skip_indents_spec(s, 10, 9) == skip_indents_spec(s, 11, 10));
        assert(skip_indents_spec(s, 11, 10) == skip_indents_spec(s, 12, 11));
        assert(skip_indents_spec(s, 12, 11) == skip_indents_spec(s, 13, 12));
        assert(skip_indents_spec(s, 13, 12) == skip_indents_spec(s, 14, 13));
        assert(skip_indents_spec(s, 14, 13) == skip_indents_spec(s, 15, 14));
        assert(skip_indents_spec(s, 15, 14) == skip_indents_spec(s, 16, 15));
        assert(skip_indents_spec(s, 16, 15) == skip_indents_spec(s, 17, 16));
        assert(skip_indents_spec(s, 17, 16) == skip_indents_spec(s, 18, 17));
        assert(skip_indents_spec(s, 18, 17) == skip_indents_spec(s, 19, 18));
        assert(skip_indents_spec(s, 19, 18) == skip_indents_spec(s, 20, 19));
        assert(skip_indents_spec(s, 20, 19) == skip_indents_spec(s, 21, 20));
        assert(skip_indents_spec(s, 21, 20) == skip_indents_spec(s, 22, 21));
        assert(skip_indents_spec(s, 22, 21) == skip_indents_spec(s, 23, 22));
        assert(skip_indents_spec(s, 23, 22) == skip_indents_spec(s, 24, 23));
        assert(skip_indents_spec(s, 24, 23) == skip_indents_spec(s, 25, 24));
        assert(skip_indents_spec(s, 25, 24) == (24nat, 25int));
    }
    lemma_group_bracket_0_0();
    lemma_group_bracket_0_1();
    lemma_group_bracket_0_2();
    lemma_group_bracket_0_3();
    lemma_group_bracket_0_4();
    lemma_group_bracket_0_5();
    lemma_group_bracket_0_6();
}

proof fn lemma_group_bracket_0_0()
    ensures
        scan_half("\n                        //\n                    }};\n                    const {output:local} = ({out_var:out})=>{{\n                        {inner}\n                    }}\n\n                    {wrapper:local}();\n                "@, 25, 25, false) == scan_half("\n                        //\n                    }};\n                    const {output:local} = ({out_var:out})=>{{\n                        {inner}\n                    }}\n\n                    {wrapper:local}();\n                "@, 78, 72, false),
{
    reveal_strlit("\n                        //\n                    }};\n                    const {output:local} = ({out_var:out})=>{{\n                        {inner}\n                    }}\n\n                    {wrapper:local}();\n                ");
    let s = "\n                        //\n                    }};\n                    const {output:local} = ({out_var:out})=>{{\n                        {inner}\n                    }}\n\n                    {wrapper:local}();\n                "@;
    assert(scan_half(s, 25, 25, false) == scan_half(s, 26, 25, false));
    assert(scan_half(s, 26, 25, false) == scan_half(s, 27, 25, false));
    assert(skip_indents_spec(s, 28, 0) == (20nat, 48int)) by {
        assert(skip_indents_spec(s, 28, 0) == skip_indents_spec(s, 29, 1));
        assert(skip_indents_spec(s, 29, 1) == skip_indents_spec(s, 30, 2));
        assert(skip_indents_spec(s, 30, 2) == skip_indents_spec(s, 31, 3));
        assert(skip_indents_spec(s, 31, 3) == skip_indents_spec(s, 32, 4));
        assert(skip_indents_spec(s, 32, 4) == skip_indents_spec(s, 33, 5));
        assert(skip_indents_spec(s, 33, 5) == skip_indents_spec(s, 34, 6));
        assert(skip_indents_spec(s, 34, 6) == skip_indents_spec(s, 35, 7));
        assert(skip_indents_spec(s, 35, 7) == skip_indents_spec(s, 36, 8));
        assert(skip_indents_spec(s, 36, 8) == skip_indents_spec(s, 37, 9));
        assert(skip_indents_spec(s, 37, 9) == skip_indents_spec(s, 38, 10));
        assert(skip_indents_spec(s, 38, 10) == skip_indents_spec(s, 39, 11));
        assert(skip_indents_spec(s, 39, 11) == skip_indents_spec(s, 40, 12));
        assert(skip_indents_spec(s, 40, 12) == skip_indents_spec(s, 41, 13));
        assert(skip_indents_spec(s, 41, 13) == skip_indents_spec(s, 42, 14));
        assert(skip_indents_spec(s, 42, 14) == skip_indents_spec(s, 43, 15));
        assert(skip_indents_spec(s, 43, 15) == skip_indents_spec(s, 44, 16));
        assert(skip_indents_spec(s, 44, 16) == skip_indents_spec(s, 45, 17));
        assert(skip_indents_spec(s, 45, 17) == skip_indents_spec(s, 46, 18));
        assert(skip_indents_spec(s, 46, 18) == skip_indents_spec(s, 47, 19));
        assert(skip_indents_spec(s, 47, 19) == skip_indents_spec(s, 48, 20));
        assert(skip_indents_spec(s, 48, 20) == (20nat, 48int));
    }
    assert(scan_half(s, 27, 25, false) == scan_half(s, 48, 48, false));
    assert(scan_half(s, 48, 48, false) == scan_half(s, 50, 49, false));
    assert(scan_half(s, 50, 49, false) == scan_half(s, 51, 49, false));
    assert(skip_indents_spec(s, 52, 0) == (20nat, 72int)) by {
        assert(skip_indents_spec(s, 52, 0) == skip_indents_spec(s, 53, 1));
        assert(skip_indents_spec(s, 53, 1) == skip_indents_spec(s, 54, 2));
        assert(skip_indents_spec(s, 54, 2) == skip_indents_spec(s, 55, 3));
        assert(skip_indents_spec(s, 55, 3) == skip_indents_spec(s, 56, 4));
        assert(skip_indents_spec(s, 56, 4) == skip_indents_spec(s, 57, 5));
        assert(skip_indents_spec(s, 57, 5) == skip_indents_spec(s, 58, 6));
        assert(skip_indents_spec(s, 58, 6) == skip_indents_spec(s, 59, 7));
        assert(skip_indents_spec(s, 59, 7) == skip_indents_spec(s, 60, 8));
        assert(skip_indents_spec(s, 60, 8) == skip_indents_spec(s, 61, 9));
        assert(skip_indents_spec(s, 61, 9) == skip_indents_spec(s, 62, 10));
        assert(skip_indents_spec(s, 62, 10) == skip_indents_spec(s, 63, 11));
        assert(skip_indents_spec(s, 63, 11) == skip_indents_spec(s, 64, 12));
        assert(skip_indents_spec(s, 64, 12) == skip_indents_spec(s, 65, 13));
        assert(skip_indents_spec(s, 65, 13) == skip_indents_spec(s, 66, 14));
        assert(skip_indents_spec(s, 66, 14) == skip_indents_spec(s, 67, 15));
        assert(skip_indents_spec(s, 67, 15) == skip_indents_spec(s, 68, 16));
        assert(skip_indents_spec(s, 68, 16) == skip_indents_spec(s, 69, 17));
        assert(skip_indents_spec(s, 69, 17) == skip_indents_spec(s, 70, 18));
        assert(skip_indents_spec(s, 70, 18) == skip_indents_spec(s, 71, 19));
        assert(skip_indents_spec(s, 71, 19) == skip_indents_spec(s, 72, 20));
        assert(skip_indents_spec(s, 72, 20) == (20nat, 72int));
    }
    assert(scan_half(s, 51, 49, false) == scan_half(s, 72, 72, false));
    assert(scan_half(s, 72, 72, false) == scan_half(s, 73, 72, false));
    assert(scan_half(s, 73, 72, false) == scan_half(s, 74, 72, false));
    assert(scan_half(s, 74, 72, false) == scan_half(s, 75, 72, false));
    assert(scan_half(s, 75, 72, false) == scan_half(s, 76, 72, false));
    assert(scan_half(s, 76, 72, false) == scan_half(s, 77, 72, false));
    assert(scan_half(s, 77, 72, false) == scan_half(s, 78, 72, false));
}

proof fn lemma_group_bracket_0_1()
    ensures
        scan_half("\n                        //\n                    }};\n                    const {output:local} = ({out_var:out})=>{{\n                        {inner}\n                    }}\n\n                    {wrapper:local}();\n                "@, 78, 72, false) == scan_half("\n                        //\n                    }};\n                    const {output:local} = ({out_var:out})=>{{\n                        {inner}\n                    }}\n\n                    {wrapper:local}();\n                "@, 91, 79, true),
{
    reveal_strlit("\n                        //\n                    }};\n                    const {output:local} = ({out_var:out})=>{{\n                        {inner}\n                    }}\n\n                    {wrapper:local}();\n                ");
    let s = "\n                        //\n                    }};\n                    const {output:local} = ({out_var:out})=>{{\n                        {inner}\n                    }}\n\n                    {wrapper:local}();\n                "@;
    assert(scan_half(s, 78, 72, false) == scan_half(s, 80, 79, true));
    assert(scan_half(s, 80, 79, true) == scan_half(s, 81, 79, true));
    assert(scan_half(s, 81, 79, true) == scan_half(s, 82, 79, true));
    assert(scan_half(s, 82, 79, true) == scan_half(s, 83, 79, true));
    assert(scan_half(s, 83, 79, true) == scan_half(s, 84, 79, true));
    assert(scan_half(s, 84, 79, true) == scan_half(s, 85, 79, true));
    assert(scan_half(s, 85, 79, true) == scan_half(s, 86, 79, true));
    assert(scan_half(s, 86, 79, true) == scan_half(s, 87, 79, true));
    assert(scan_half(s, 87, 79, true) == scan_half(s, 88, 79, true));
    assert(scan_half(s, 88, 79, true) == scan_half(s, 89, 79, true));
    assert(scan_half(s, 89, 79, true) == scan_half(s, 90, 79, true));
    assert(scan_half(s, 90, 79, true) == scan_half(s, 91, 79, true));
}

proof fn lemma_group_bracket_0_2()
    ensures
        scan_half("\n                        //\n                    }};\n                    const {output:local} = ({out_var:out})=>{{\n                        {inner}\n                    }}\n\n                    {wrapper:local}();\n                "@, 91, 79, true) == scan_half("\n                        //\n                    }};\n                    const {output:local} = ({out_var:out})=>{{\n                        {inner}\n                    }}\n\n                    {wrapper:local}();\n                "@, 104, 97, true),
{
    reveal_strlit("\n                        //\n                    }};\n                    const {output:local} = ({out_var:out})=>{{\n                        {inner}\n                    }}\n\n                    {wrapper:local}();\n                ");
    let s = "\n                        //\n                    }};\n                    const {output:local} = ({out_var:out})=>{{\n                        {inner}\n                    }}\n\n                    {wrapper:local}();\n                "@;
    assert(s.subrange(79, 91) =~= seq!['o', 'u', 't', 'p', 'u', 't', ':', 'l', 'o', 'c', 'a', 'l']);
    assert(is_word(seq!['o', 'u', 't', 'p', 'u', 't'])) by {
        let w = seq!['o', 'u', 't', 'p', 'u', 't'];
        assert forall|k: int| 0 <= k < 6 implies !is_whitespace_spec(#[trigger] w[k]) && w[k] != ':' by {
            assert(k == 0 || k == 1 || k == 2 || k == 3 || k == 4 || k == 5);
        }
    }
    assert(is_word(seq!['l', 'o', 'c', 'a', 'l'])) by {
        let w = seq!['l', 'o', 'c', 'a', 'l'];
        assert forall|k: int| 0 <= k < 5 implies !is_whitespace_spec(#[trigger] w[k]) && w[k] != ':' by {
            assert(k == 0 || k == 1 || k == 2 || k == 3 || k == 4);
        }
    }
    lemma_classify_variable(seq!['o', 'u', 't', 'p', 'u', 't'], seq!['l', 'o', 'c', 'a', 'l']);
    assert(seq!['o', 'u', 't', 'p', 'u', 't', ':', 'l', 'o', 'c', 'a', 'l'] =~= seq!['o', 'u', 't', 'p', 'u', 't'] + seq![':'] + seq!['l', 'o', 'c', 'a', 'l']);
    assert(scan_half(s, 91, 79, true) == scan_half(s, 92, 92, false));
    assert(scan_half(s, 92, 92, false) == scan_half(s, 93, 92, false));
    assert(scan_half(s, 93, 92, false) == scan_half(s, 94, 92, false));
    assert(scan_half(s, 94, 92, false) == scan_half(s, 95, 92, false));
    assert(scan_half(s, 95, 92, false) == scan_half(s, 96, 92, false));
    assert(scan_half(s, 96, 92, false) == scan_half(s, 98, 97, true));
    assert(scan_half(s, 98, 97, true) == scan_half(s, 99, 97, true));
    assert(scan_half(s, 99, 97, true) == scan_half(s, 100, 97, true));
    assert(scan_half(s, 100, 97, true) == scan_half(s, 101, 97, true));
    assert(scan_half(s, 101, 97, true) == scan_half(s, 102, 97, true));
    assert(scan_half(s, 102, 97, true) == scan_half(s, 103, 97, true));
    assert(scan_half(s, 103, 97, true) == scan_half(s, 104, 97, true));
}

proof fn lemma_group_bracket_0_3()
    ensures
        scan_half("\n                        //\n                    }};\n                    const {output:local} = ({out_var:out})=>{{\n                        {inner}\n                    }}\n\n                    {wrapper:local}();\n                "@, 104, 97, true) == scan_half("\n                        //\n                    }};\n                    const {output:local} = ({out_var:out})=>{{\n                        {inner}\n                    }}\n\n                    {wrapper:local}();\n                "@, 142, 140, true),
{
    reveal_strlit("\n                        //\n                    }};\n                    const {output:local} = ({out_var:out})=>{{\n                        {inner}\n                    }}\n\n                    {wrapper:local}();\n                ");
    let s = "\n                        //\n                    }};\n                    const {output:local} = ({out_var:out})=>{{\n                        {inner}\n                    }}\n\n                    {wrapper:local}();\n                "@;
    assert(scan_half(s, 104, 97, true) == scan_half(s, 105, 97, true));
    assert(scan_half(s, 105, 97, true) == scan_half(s, 106, 97, true));
    assert(scan_half(s, 106, 97, true) == scan_half(s, 107, 97, true));
    assert(scan_half(s, 107, 97, true) == scan_half(s, 108, 97, true));
    assert(s.subrange(97, 108) =~= seq!['o', 'u', 't', '_', 'v', 'a', 'r', ':', 'o', 'u', 't']);
    assert(is_word(seq!['o', 'u', 't', '_', 'v', 'a', 'r'])) by {
        let w = seq!['o', 'u', 't', '_', 'v', 'a', 'r'];
        assert forall|k: int| 0 <= k < 7 implies !is_whitespace_spec(#[trigger] w[k]) && w[k] != ':' by {
            assert(k == 0 || k == 1 || k == 2 || k == 3 || k == 4 || k == 5 || k == 6);
        }
    }
    assert(is_word(seq!['o', 'u', 't'])) by {
        let w = seq!['o', 'u', 't'];
        assert forall|k: int| 0 <= k < 3 implies !is_whitespace_spec(#[trigger] w[k]) && w[k] != ':' by {
            assert(k == 0 || k == 1 || k == 2);
        }
    }
    lemma_classify_variable(seq!['o', 'u', 't', '_', 'v', 'a', 'r'], seq!['o', 'u', 't']);
    assert(seq!['o', 'u', 't', '_', 'v', 'a', 'r', ':', 'o', 'u', 't'] =~= seq!['o', 'u', 't', '_', 'v', 'a', 'r'] + seq![':'] + seq!['o', 'u', 't']);
    assert(scan_half(s, 108, 97, true) == scan_half(s, 109, 109, false));
    assert(scan_half(s, 109, 109, false) == scan_half(s, 110, 109, false));
    assert(scan_half(s, 110, 109, false) == scan_half(s, 111, 109, false));
    assert(scan_half(s, 111, 109, false) == scan_half(s, 112, 109, false));
    assert(scan_half(s, 112, 109, false) == scan_half(s, 114, 113, false));
    assert(skip_indents_spec(s, 115, 0) == (24nat, 139int)) by {
        assert(skip_indents_spec(s, 115, 0) == skip_indents_spec(s, 116, 1));
        assert(skip_indents_spec(s, 116, 1) == skip_indents_spec(s, 117, 2));
        assert(skip_indents_spec(s, 117, 2) == skip_indents_spec(s, 118, 3));
        assert(skip_indents_spec(s, 118, 3) == skip_indents_spec(s, 119, 4));
        assert(skip_indents_spec(s, 119, 4) == skip_indents_spec(s, 120, 5));
        assert(skip_indents_spec(s, 120, 5) == skip_indents_spec(s, 121, 6));
        assert(skip_indents_spec(s, 121, 6) == skip_indents_spec(s, 122, 7));
        assert(skip_indents_spec(s, 122, 7) == skip_indents_spec(s, 123, 8));
        assert(skip_indents_spec(s, 123, 8) == skip_indents_spec(s, 124, 9));
        assert(skip_indents_spec(s, 124, 9) == skip_indents_spec(s, 125, 10));
        assert(skip_indents_spec(s, 125, 10) == skip_indents_spec(s, 126, 11));
        assert(skip_indents_spec(s, 126, 11) == skip_indents_spec(s, 127, 12));
        assert(skip_indents_spec(s, 127, 12) == skip_indents_spec(s, 128, 13));
        assert(skip_indents_spec(s, 128, 13) == skip_indents_spec(s, 129, 14));
        assert(skip_indents_spec(s, 129, 14) == skip_indents_spec(s, 130, 15));
        assert(skip_indents_spec(s, 130, 15) == skip_indents_spec(s, 131, 16));
        assert(skip_indents_spec(s, 131, 16) == skip_indents_spec(s, 132, 17));
        assert(skip_indents_spec(s, 132, 17) == skip_indents_spec(s, 133, 18));
        assert(skip_indents_spec(s, 133, 18) == skip_indents_spec(s, 134, 19));
        assert(skip_indents_spec(s, 134, 19) == skip_indents_spec(s, 135, 20));
        assert(skip_indents_spec(s, 135, 20) == skip_indents_spec(s, 136, 21));
        assert(skip_indents_spec(s, 136, 21) == skip_indents_spec(s, 137, 22));
        assert(skip_indents_spec(s, 137, 22) == skip_indents_spec(s, 138, 23));
        assert(skip_indents_spec(s, 138, 23) == skip_indents_spec(s, 139, 24));
        assert(skip_indents_spec(s, 139, 24) == (24nat, 139int));
    }
    assert(scan_half(s, 114, 113, false) == scan_half(s, 139, 139, false));
    assert(scan_half(s, 139, 139, false) == scan_half(s, 141, 140, true));
    assert(scan_half(s, 141, 140, true) == scan_half(s, 142, 140, true));
}

proof fn lemma_group_bracket_0_4()
    ensures
        scan_half("\n                        //\n                    }};\n                    const {output:local} = ({out_var:out})=>{{\n                        {inner}\n                    }}\n\n                    {wrapper:local}();\n                "@, 142, 140, true) == Some(146int),
{
    reveal_strlit("\n                        //\n                    }};\n                    const {output:local} = ({out_var:out})=>{{\n                        {inner}\n                    }}\n\n                    {wrapper:local}();\n                ");
    let s = "\n                        //\n                    }};\n                    const {output:local} = ({out_var:out})=>{{\n                        {inner}\n                    }}\n\n                    {wrapper:local}();\n                "@;
    assert(scan_half(s, 142, 140, true) == scan_half(s, 143, 140, true));
    assert(scan_half(s, 143, 140, true) == scan_half(s, 144, 140, true));
    assert(scan_half(s, 144, 140, true) == scan_half(s, 145, 140, true));
    assert(s.subrange(140, 145) =~= seq!['i', 'n', 'n', 'e', 'r']);
    lemma_classify_inner();
    assert(seq!['i', 'n', 'n', 'e', 'r'] =~= inner_word());
    assert(scan_half(s, 145, 140, true) == Some(146int));
}

proof fn lemma_group_bracket_0_5()
    ensures
        scan_half("\n                        //\n                    }};\n                    const {output:local} = ({out_var:out})=>{{\n                        {inner}\n                    }}\n\n                    {wrapper:local}();\n                "@, 146, 146, false) == scan_half("\n                        //\n                    }};\n                    const {output:local} = ({out_var:out})=>{{\n                        {inner}\n                    }}\n\n                    {wrapper:local}();\n                "@, 201, 192, true),
{
    reveal_strlit("\n                        //\n                    }};\n                    const {output:local} = ({out_var:out})=>{{\n                        {inner}\n                    }}\n\n                    {wrapper:local}();\n                ");
    let s = "\n                        //\n                    }};\n                    const {output:local} = ({out_var:out})=>{{\n                        {inner}\n                    }}\n\n                    {wrapper:local}();\n                "@;
    assert(skip_indents_spec(s, 147, 0) == (20nat, 167int)) by {
        assert(skip_indents_spec(s, 147, 0) == skip_indents_spec(s, 148, 1));
        assert(skip_indents_spec(s, 148, 1) == skip_indents_spec(s, 149, 2));
        assert(skip_indents_spec(s, 149, 2) == skip_indents_spec(s, 150, 3));
        assert(skip_indents_spec(s, 150, 3) == skip_indents_spec(s, 151, 4));
        assert(skip_indents_spec(s, 151, 4) == skip_indents_spec(s, 152, 5));
        assert(skip_indents_spec(s, 152, 5) == skip_indents_spec(s, 153, 6));
        assert(skip_indents_spec(s, 153, 6) == skip_indents_spec(s, 154, 7));
        assert(skip_indents_spec(s, 154, 7) == skip_indents_spec(s, 155, 8));
        assert(skip_indents_spec(s, 155, 8) == skip_indents_spec(s, 156, 9));
        assert(skip_indents_spec(s, 156, 9) == skip_indents_spec(s, 157, 10));
        assert(skip_indents_spec(s, 157, 10) == skip_indents_spec(s, 158, 11));
        assert(skip_indents_spec(s, 158, 11) == skip_indents_spec(s, 159, 12));
        assert(skip_indents_spec(s, 159, 12) == skip_indents_spec(s, 160, 13));
        assert(skip_indents_spec(s, 160, 13) == skip_indents_spec(s, 161, 14));
        assert(skip_indents_spec(s, 161, 14) == skip_indents_spec(s, 162, 15));
        assert(skip_indents_spec(s, 162, 15) == skip_indents_spec(s, 163, 16));
        assert(skip_indents_spec(s, 163, 16) == skip_indents_spec(s, 164, 17));
        assert(skip_indents_spec(s, 164, 17) == skip_indents_spec(s, 165, 18));
        assert(skip_indents_spec(s, 165, 18) == skip_indents_spec(s, 166, 19));
        assert(skip_indents_spec(s, 166, 19) == skip_indents_spec(s, 167, 20));
        assert(skip_indents_spec(s, 167, 20) == (20nat, 167int));
    }
    assert(scan_half(s, 146, 146, false) == scan_half(s, 167, 167, false));
    assert(scan_half(s, 167, 167, false) == scan_half(s, 169, 168, false));
    assert(skip_indents_spec(s, 170, 0) == (20nat, 191int)) by {
        assert(skip_indents_spec(s, 170, 0) == skip_indents_spec(s, 171, 0));
        assert(skip_indents_spec(s, 171, 0) == skip_indents_spec(s, 172, 1));
        assert(skip_indents_spec(s, 172, 1) == skip_indents_spec(s, 173, 2));
        assert(skip_indents_spec(s, 173, 2) == skip_indents_spec(s, 174, 3));
        assert(skip_indents_spec(s, 174, 3) == skip_indents_spec(s, 175, 4));
        assert(skip_indents_spec(s, 175, 4) == skip_indents_spec(s, 176, 5));
        assert(skip_indents_spec(s, 176, 5) == skip_indents_spec(s, 177, 6));
        assert(skip_indents_spec(s, 177, 6) == skip_indents_spec(s, 178, 7));
        assert(skip_indents_spec(s, 178, 7) == skip_indents_spec(s, 179, 8));
        assert(skip_indents_spec(s, 179, 8) == skip_indents_spec(s, 180, 9));
        assert(skip_indents_spec(s, 180, 9) == skip_indents_spec(s, 181, 10));
        assert(skip_indents_spec(s, 181, 10) == skip_indents_spec(s, 182, 11));
        assert(skip_indents_spec(s, 182, 11) == skip_indents_spec(s, 183, 12));
        assert(skip_indents_spec(s, 183, 12) == skip_indents_spec(s, 184, 13));
        assert(skip_indents_spec(s, 184, 13) == skip_indents_spec(s, 185, 14));
        assert(skip_indents_spec(s, 185, 14) == skip_indents_spec(s, 186, 15));
        assert(skip_indents_spec(s, 186, 15) == skip_indents_spec(s, 187, 16));
        assert(skip_indents_spec(s, 187, 16) == skip_indents_spec(s, 188, 17));
        assert(skip_indents_spec(s, 188, 17) == skip_indents_spec(s, 189, 18));
        assert(skip_indents_spec(s, 189, 18) == skip_indents_spec(s, 190, 19));
        assert(skip_indents_spec(s, 190, 19) == skip_indents_spec(s, 191, 20));
        assert(skip_indents_spec(s, 191, 20) == (20nat, 191int));
    }
    assert(scan_half(s, 169, 168, false) == scan_half(s, 191, 191, false));
    assert(scan_half(s, 191, 191, false) == scan_half(s, 193, 192, true));
    assert(scan_half(s, 193, 192, true) == scan_half(s, 194, 192, true));
    assert(scan_half(s, 194, 192, true) == scan_half(s, 195, 192, true));
    assert(scan_half(s, 195, 192, true) == scan_half(s, 196, 192, true));
    assert(scan_half(s, 196, 192, true) == scan_half(s, 197, 192, true));
    assert(scan_half(s, 197, 192, true) == scan_half(s, 198, 192, true));
    assert(scan_half(s, 198, 192, true) == scan_half(s, 199, 192, true));
    assert(scan_half(s, 199, 192, true) == scan_half(s, 200, 192, true));
    assert(scan_half(s, 200, 192, true) == scan_half(s, 201, 192, true));
}

proof fn lemma_group_bracket_0_6()
    ensures
        scan_half("\n                        //\n                    }};\n                    const {output:local} = ({out_var:out})=>{{\n                        {inner}\n                    }}\n\n                    {wrapper:local}();\n                "@, 201, 192, true) == Some(226int),
{
    reveal_strlit("\n                        //\n                    }};\n                    const {output:local} = ({out_var:out})=>{{\n                        {inner}\n                    }}\n\n                    {wrapper:local}();\n                ");
    let s = "\n                        //\n                    }};\n                    const {output:local} = ({out_var:out})=>{{\n                        {inner}\n                    }}\n\n                    {wrapper:local}();\n                "@;
    assert(scan_half(s, 201, 192, true) == scan_half(s, 202, 192, true));
    assert(scan_half(s, 202, 192, true) == scan_half(s, 203, 192, true));
    assert(scan_half(s, 203, 192, true) == scan_half(s, 204, 192, true));
    assert(scan_half(s, 204, 192, true) == scan_half(s, 205, 192, true));
    assert(s.subrange(192, 205) =~= seq!['w', 'r', 'a', 'p', 'p', 'e', 'r', ':', 'l', 'o', 'c', 'a', 'l']);
    assert(is_word(seq!['w', 'r', 'a', 'p', 'p', 'e', 'r'])) by {
        let w = seq!['w', 'r', 'a', 'p', 'p', 'e', 'r'];
        assert forall|k: int| 0 <= k < 7 implies !is_whitespace_spec(#[trigger] w[k]) && w[k] != ':' by {
            assert(k == 0 || k == 1 || k == 2 || k == 3 || k == 4 || k == 5 || k == 6);
        }
    }
    assert(is_word(seq!['l', 'o', 'c', 'a', 'l'])) by {
        let w = seq!['l', 'o', 'c', 'a', 'l'];
        assert forall|k: int| 0 <= k < 5 implies !is_whitespace_spec(#[trigger] w[k]) && w[k] != ':' by {
            assert(k == 0 || k == 1 || k == 2 || k == 3 || k == 4);
        }
    }
    lemma_classify_variable(seq!['w', 'r', 'a', 'p', 'p', 'e', 'r'], seq!['l', 'o', 'c', 'a', 'l']);
    assert(seq!['w', 'r', 'a', 'p', 'p', 'e', 'r', ':', 'l', 'o', 'c', 'a', 'l'] =~= seq!['w', 'r', 'a', 'p', 'p', 'e', 'r'] + seq![':'] + seq!['l', 'o', 'c', 'a', 'l']);
    assert(scan_half(s, 205, 192, true) == scan_half(s, 206, 206, false));
    assert(scan_half(s, 206, 206, false) == scan_half(s, 207, 206, false));
    assert(scan_half(s, 207, 206, false) == scan_half(s, 208, 206, false));
    assert(scan_half(s, 208, 206, false) == scan_half(s, 209, 206, false));
    assert(skip_indents_spec(s, 210, 0) == (16nat, 226int)) by {
        assert(skip_indents_spec(s, 210, 0) == skip_indents_spec(s, 211, 1));
        assert(skip_indents_spec(s, 211, 1) == skip_indents_spec(s, 212, 2));
        assert(skip_indents_spec(s, 212, 2) == skip_indents_spec(s, 213, 3));
        assert(skip_indents_spec(s, 213, 3) == skip_indents_spec(s, 214, 4));
        assert(skip_indents_spec(s, 214, 4) == skip_indents_spec(s, 215, 5));
        assert(skip_indents_spec(s, 215, 5) == skip_indents_spec(s, 216, 6));
        assert(skip_indents_spec(s, 216, 6) == skip_indents_spec(s, 217, 7));
        assert(skip_indents_spec(s, 217, 7) == skip_indents_spec(s, 218, 8));
        assert(skip_indents_spec(s, 218, 8) == skip_indents_spec(s, 219, 9));
        assert(skip_indents_spec(s, 219, 9) == skip_indents_spec(s, 220, 10));
        assert(skip_indents_spec(s, 220, 10) == skip_indents_spec(s, 221, 11));
        assert(skip_indents_spec(s, 221, 11) == skip_indents_spec(s, 222, 12));
        assert(skip_indents_spec(s, 222, 12) == skip_indents_spec(s, 223, 13));
        assert(skip_indents_spec(s, 223, 13) == skip_indents_spec(s, 224, 14));
        assert(skip_indents_spec(s, 224, 14) == skip_indents_spec(s, 225, 15));
        assert(skip_indents_spec(s, 225, 15) == skip_indents_spec(s, 226, 16));
        assert(skip_indents_spec(s, 226, 16) == (16nat, 226int));
    }
    assert(scan_half(s, 209, 206, false) == scan_half(s, 226, 226, false));
    assert(scan_half(s, 226, 226, false) == Some(226int));
}

/// The `group` builtin builds from its templates.
proof fn lemma_group_builds()
    ensures
        build_builtin(builtin_sources_spec()[0]) is Ok,
{
    let b = builtin_sources_spec()[0];
    lemma_group_template();
    lemma_template_parses(b.template);
    lemma_group_handler_0();
    lemma_half_template_parses(handler_text(b.brackets[0]));
    lemma_group_bracket_0();
    lemma_template_parses(b.brackets[0].fragment);
    assert(build_bracket(b.brackets[0]) is Ok);
    lemma_build_brackets_ok(b.brackets);
}

/// The template of the `array` builtin parses.
proof fn lemma_array_template()
    ensures
        template_parses("\n            const {arr:local} = [];\n            { inner }\n        "@),
{
    reveal_strlit("\n            const {arr:local} = [];\n            { inner }\n        ");
    let s = "\n            const {arr:local} = [];\n            { inner }\n        "@;
    assert(s.len() == 67);
    assert(skip_indents_spec(s, 0, 0) == (12nat, 13int)) by {
        assert(skip_indents_spec(s, 0, 0) == skip_indents_spec(s, 1, 0));
        assert(skip_indents_spec(s, 1, 0) == skip_indents_spec(s, 2, 1));
        assert(skip_indents_spec(s, 2, 1) == skip_indents_spec(s, 3, 2));
        assert(skip_indents_spec(s, 3, 2) == skip_indents_spec(s, 4, 3));
        assert(skip_indents_spec(s, 4, 3) == skip_indents_spec(s, 5, 4));
        assert(skip_indents_spec(s, 5, 4) == skip_indents_spec(s, 6, 5));
        assert(skip_indents_spec(s, 6, 5) == skip_indents_spec(s, 7, 6));
        assert(skip_indents_spec(s, 7, 6) == skip_indents_spec(s, 8, 7));
        assert(skip_indents_spec(s, 8, 7) == skip_indents_spec(s, 9, 8));
        assert(skip_indents_spec(s, 9, 8) == skip_indents_spec(s, 10, 9));
        assert(skip_indents_spec(s, 10, 9) == skip_indents_spec(s, 11, 10));
        assert(skip_indents_spec(s, 11, 10) == skip_indents_spec(s, 12, 11));
        assert(skip_indents_spec(s, 12, 11) == skip_indents_spec(s, 13, 12));
        assert(skip_indents_spec(s, 13, 12) == (12nat, 13int));
    }
    lemma_array_template_0();
    lemma_array_template_1();
    lemma_array_template_2();
    lemma_array_template_3();
}

proof fn lemma_array_template_0()
    ensures
        scan_half("\n            const {arr:local} = [];\n            { inner }\n        "@, 13, 13, false) == scan_half("\n            const {arr:local} = [];\n            { inner }\n        "@, 26, 20, true),
{
    reveal_strlit("\n            const {arr:local} = [];\n            { inner }\n        ");
    let s = "\n            const {arr:local} = [];\n            { inner }\n        "@;
    assert(scan_half(s, 13, 13, false) == scan_half(s, 14, 13, false));
    assert(scan_half(s, 14, 13, false) == scan_half(s, 15, 13, false));
    assert(scan_half(s, 15, 13, false) == scan_half(s, 16, 13, false));
    assert(scan_half(s, 16, 13, false) == scan_half(s, 17, 13, false));
    assert(scan_half(s, 17, 13, false) == scan_half(s, 18, 13, false));
    assert(scan_half(s, 18, 13, false) == scan_half(s, 19, 13, false));
    assert(scan_half(s, 19, 13, false) == scan_half(s, 21, 20, true));
    assert(scan_half(s, 21, 20, true) == scan_half(s, 22, 20, true));
    assert(scan_half(s, 22, 20, true) == scan_half(s, 23, 20, true));
    assert(scan_half(s, 23, 20, true) == scan_half(s, 24, 20, true));
    assert(scan_half(s, 24, 20, true) == scan_half(s, 25, 20, true));
    assert(scan_half(s, 25, 20, true) == scan_half(s, 26, 20, true));
}

proof fn lemma_array_template_1()
    ensures
        scan_half("\n            const {arr:local} = [];\n            { inner }\n        "@, 26, 20, true) == scan_half("\n            const {arr:local} = [];\n            { inner }\n        "@, 51, 50, true),
{
    reveal_strlit("\n            const {arr:local} = [];\n            { inner }\n        ");
    let s = "\n            const {arr:local} = [];\n            { inner }\n        "@;
    assert(scan_half(s, 26, 20, true) == scan_half(s, 27, 20, true));
    assert(scan_half(s, 27, 20, true) == scan_half(s, 28, 20, true));
    assert(scan_half(s, 28, 20, true) == scan_half(s, 29, 20, true));
    assert(s.subrange(20, 29) =~= seq!['a', 'r', 'r', ':', 'l', 'o', 'c', 'a', 'l']);
    assert(is_word(seq!['a', 'r', 'r'])) by {
        let w = seq!['a', 'r', 'r'];
        assert forall|k: int| 0 <= k < 3 implies !is_whitespace_spec(#[trigger] w[k]) && w[k] != ':' by {
            assert(k == 0 || k == 1 || k == 2);
        }
    }
    assert(is_word(seq!['l', 'o', 'c', 'a', 'l'])) by {
        let w = seq!['l', 'o', 'c', 'a', 'l'];
        assert forall|k: int| 0 <= k < 5 implies !is_whitespace_spec(#[trigger] w[k]) && w[k] != ':' by {
            assert(k == 0 || k == 1 || k == 2 || k == 3 || k == 4);
        }
    }
    lemma_classify_variable(seq!['a', 'r', 'r'], seq!['l', 'o', 'c', 'a', 'l']);
    assert(seq!['a', 'r', 'r', ':', 'l', 'o', 'c', 'a', 'l'] =~= seq!['a', 'r', 'r'] + seq![':'] + seq!['l', 'o', 'c', 'a', 'l']);
    assert(scan_half(s, 29, 20, true) == scan_half(s, 30, 30, false));
    assert(scan_half(s, 30, 30, false) == scan_half(s, 31, 30, false));
    assert(scan_half(s, 31, 30, false) == scan_half(s, 32, 30, false));
    assert(scan_half(s, 32, 30, false) == scan_half(s, 33, 30, false));
    assert(scan_half(s, 33, 30, false) == scan_half(s, 34, 30, false));
    assert(scan_half(s, 34, 30, false) == scan_half(s, 35, 30, false));
    assert(scan_half(s, 35, 30, false) == scan_half(s, 36, 30, false));
    assert(skip_indents_spec(s, 37, 0) == (12nat, 49int)) by {
        assert(skip_indents_spec(s, 37, 0) == skip_indents_spec(s, 38, 1));
        assert(skip_indents_spec(s, 38, 1) == skip_indents_spec(s, 39, 2));
        assert(skip_indents_spec(s, 39, 2) == skip_indents_spec(s, 40, 3));
        assert(skip_indents_spec(s, 40, 3) == skip_indents_spec(s, 41, 4));
        assert(skip_indents_spec(s, 41, 4) == skip_indents_spec(s, 42, 5));
        assert(skip_indents_spec(s, 42, 5) == skip_indents_spec(s, 43, 6));
        assert(skip_indents_spec(s, 43, 6) == skip_indents_spec(s, 44, 7));
        assert(skip_indents_spec(s, 44, 7) == skip_indents_spec(s, 45, 8));
        assert(skip_indents_spec(s, 45, 8) == skip_indents_spec(s, 46, 9));
        assert(skip_indents_spec(s, 46, 9) == skip_indents_spec(s, 47, 10));
        assert(skip_indents_spec(s, 47, 10) == skip_indents_spec(s, 48, 11));
        assert(skip_indents_spec(s, 48, 11) == skip_indents_spec(s, 49, 12));
        assert(skip_indents_spec(s, 49, 12) == (12nat, 49int));
    }
    assert(scan_half(s, 36, 30, false) == scan_half(s, 49, 49, false));
    assert(scan_half(s, 49, 49, false) == scan_half(s, 51, 50, true));
}

proof fn lemma_array_template_2()
    ensures
        scan_half("\n            const {arr:local} = [];\n            { inner }\n        "@, 51, 50, true) == Some(58int),
{
    reveal_strlit("\n            const {arr:local} = [];\n            { inner }\n        ");
    let s = "\n            const {arr:local} = [];\n            { inner }\n        "@;
    assert(scan_half(s, 51, 50, true) == scan_half(s, 52, 50, true));
    assert(scan_half(s, 52, 50, true) == scan_half(s, 53, 50, true));
    assert(scan_half(s, 53, 50, true) == scan_half(s, 54, 50, true));
    assert(scan_half(s, 54, 50, true) == scan_half(s, 55, 50, true));
    assert(scan_half(s, 55, 50, true) == scan_half(s, 56, 50, true));
    assert(scan_half(s, 56, 50, true) == scan_half(s, 57, 50, true));
    assert(s.subrange(50, 57) =~= seq![' ', 'i', 'n', 'n', 'e', 'r', ' ']);
    lemma_classify_inner();
    assert(seq![' ', 'i', 'n', 'n', 'e', 'r', ' '] =~= seq![' '] + inner_word() + seq![' ']);
    assert(scan_half(s, 57, 50, true) == Some(58int));
}

proof fn lemma_array_template_3()
    ensures
        scan_half("\n            const {arr:local} = [];\n            { inner }\n        "@, 58, 58, false) == Some(67int),
{
    reveal_strlit("\n            const {arr:local} = [];\n            { inner }\n        ");
    let s = "\n            const {arr:local} = [];\n            { inner }\n        "@;
    assert(skip_indents_spec(s, 59, 0) == (8nat, 67int)) by {
        assert(skip_indents_spec(s, 59, 0) == skip_indents_spec(s, 60, 1));
        assert(skip_indents_spec(s, 60, 1) == skip_indents_spec(s, 61, 2));
        assert(skip_indents_spec(s, 61, 2) == skip_indents_spec(s, 62, 3));
        assert(skip_indents_spec(s, 62, 3) == skip_indents_spec(s, 63, 4));
        assert(skip_indents_spec(s, 63, 4) == skip_indents_spec(s, 64, 5));
        assert(skip_indents_spec(s, 64, 5) == skip_indents_spec(s, 65, 6));
        assert(skip_indents_spec(s, 65, 6) == skip_indents_spec(s, 66, 7));
        assert(skip_indents_spec(s, 66, 7) == skip_indents_spec(s, 67, 8));
        assert(skip_indents_spec(s, 67, 8) == (8nat, 67int));
    }
    assert(scan_half(s, 58, 58, false) == scan_half(s, 67, 67, false));
    assert(scan_half(s, 67, 67, false) == Some(67int));
}

/// The output handler of bracket 0 of the `array` builtin parses.
proof fn lemma_array_handler_0()
    ensures
        half_template_parses("\n                        {arr:local}.push({value:in});\n                        "@),
{
    reveal_strlit("\n                        {arr:local}.push({value:in});\n                        ");
    let s = "\n                        {arr:local}.push({value:in});\n                        "@;
    assert(s.len() == 79);
    assert(skip_indents_spec(s, 0, 0) == (24nat, 25int)) by {
        assert(skip_indents_spec(s, 0, 0) == skip_indents_spec(s, 1, 0));
        assert(skip_indents_spec(s, 1, 0) == skip_indents_spec(s, 2, 1));
        assert(skip_indents_spec(s, 2, 1) == skip_indents_spec(s, 3, 2));
        assert(skip_indents_spec(s, 3, 2) == skip_indents_spec(s, 4, 3));
        assert(skip_indents_spec(s, 4, 3) == skip_indents_spec(s, 5, 4));
        assert(skip_indents_spec(s, 5, 4) == skip_indents_spec(s, 6, 5));
        assert(skip_indents_spec(s, 6, 5) == skip_indents_spec(s, 7, 6));
        assert(skip_indents_spec(s, 7, 6) == skip_indents_spec(s, 8, 7));
        assert(skip_indents_spec(s, 8, 7) == skip_indents_spec(s, 9, 8));
        assert(skip_indents_spec(s, 9, 8) == skip_indents_spec(s, 10, 9));
        assert(skip_indents_spec(s, 10, 9) == skip_indents_spec(s, 11, 10));
        assert(skip_indents_spec(s, 11, 10) == skip_indents_spec(s, 12, 11));
        assert(skip_indents_spec(s, 12, 11) == skip_indents_spec(s, 13, 12));
        assert(skip_indents_spec(s, 13, 12) == skip_indents_spec(s, 14, 13));
        assert(skip_indents_spec(s, 14, 13) == skip_indents_spec(s, 15, 14));
        assert(skip_indents_spec(s, 15, 14) == skip_indents_spec(s, 16, 15));
        assert(skip_indents_spec(s, 16, 15) == skip_indents_spec(s, 17, 16));
        assert(skip_indents_spec(s, 17, 16) == skip_indents_spec(s, 18, 17));
        assert(skip_indents_spec(s, 18, 17) == skip_indents_spec(s, 19, 18));
        assert(skip_indents_spec(s, 19, 18) == skip_indents_spec(s, 20, 19));
        assert(skip_indents_spec(s, 20, 19) == skip_indents_spec(s, 21, 20));
        assert(skip_indents_spec(s, 21, 20) == skip_indents_spec(s, 22, 21));
        assert(skip_indents_spec(s, 22, 21) == skip_indents_spec(s, 23, 22));
        assert(skip_indents_spec(s, 23, 22) == skip_indents_spec(s, 24, 23));
        assert(skip_indents_spec(s, 24, 23) == skip_indents_spec(s, 25, 24));
        assert(skip_indents_spec(s, 25, 24) == (24nat, 25int));
    }
    lemma_array_handler_0_0();
    lemma_array_handler_0_1();
    lemma_array_handler_0_2();
}

proof fn lemma_array_handler_0_0()
    ensures
        scan_half("\n                        {arr:local}.push({value:in});\n                        "@, 25, 25, false) == scan_half("\n                        {arr:local}.push({value:in});\n                        "@, 38, 36, false),
{
    reveal_strlit("\n                        {arr:local}.push({value:in});\n                        ");
    let s = "\n                        {arr:local}.push({value:in});\n                        "@;
    assert(scan_half(s, 25, 25, false) == scan_half(s, 27, 26, true));
    assert(scan_half(s, 27, 26, true) == scan_half(s, 28, 26, true));
    assert(scan_half(s, 28, 26, true) == scan_half(s, 29, 26, true));
    assert(scan_half(s, 29, 26, true) == scan_half(s, 30, 26, true));
    assert(scan_half(s, 30, 26, true) == scan_half(s, 31, 26, true));
    assert(scan_half(s, 31, 26, true) == scan_half(s, 32, 26, true));
    assert(scan_half(s, 32, 26, true) == scan_half(s, 33, 26, true));
    assert(scan_half(s, 33, 26, true) == scan_half(s, 34, 26, true));
    assert(scan_half(s, 34, 26, true) == scan_half(s, 35, 26, true));
    assert(s.subrange(26, 35) =~= seq!['a', 'r', 'r', ':', 'l', 'o', 'c', 'a', 'l']);
    assert(is_word(seq!['a', 'r', 'r'])) by {
        let w = seq!['a', 'r', 'r'];
        assert forall|k: int| 0 <= k < 3 implies !is_whitespace_spec(#[trigger] w[k]) && w[k] != ':' by {
            assert(k == 0 || k == 1 || k == 2);
        }
    }
    assert(is_word(seq!['l', 'o', 'c', 'a', 'l'])) by {
        let w = seq!['l', 'o', 'c', 'a', 'l'];
        assert forall|k: int| 0 <= k < 5 implies !is_whitespace_spec(#[trigger] w[k]) && w[k] != ':' by {
            assert(k == 0 || k == 1 || k == 2 || k == 3 || k == 4);
        }
    }
    lemma_classify_variable(seq!['a', 'r', 'r'], seq!['l', 'o', 'c', 'a', 'l']);
    assert(seq!['a', 'r', 'r', ':', 'l', 'o', 'c', 'a', 'l'] =~= seq!['a', 'r', 'r'] + seq![':'] + seq!['l', 'o', 'c', 'a', 'l']);
    assert(scan_half(s, 35, 26, true) == scan_half(s, 36, 36, false));
    assert(scan_half(s, 36, 36, false) == scan_half(s, 37, 36, false));
    assert(scan_half(s, 37, 36, false) == scan_half(s, 38, 36, false));
}

proof fn lemma_array_handler_0_1()
    ensures
        scan_half("\n                        {arr:local}.push({value:in});\n                        "@, 38, 36, false) == scan_half("\n                        {arr:local}.push({value:in});\n                        "@, 51, 43, true),
{
    reveal_strlit("\n                        {arr:local}.push({value:in});\n                        ");
    let s = "\n                        {arr:local}.push({value:in});\n                        "@;
    assert(scan_half(s, 38, 36, false) == scan_half(s, 39, 36, false));
    assert(scan_half(s, 39, 36, false) == scan_half(s, 40, 36, false));
    assert(scan_half(s, 40, 36, false) == scan_half(s, 41, 36, false));
    assert(scan_half(s, 41, 36, false) == scan_half(s, 42, 36, false));
    assert(scan_half(s, 42, 36, false) == scan_half(s, 44, 43, true));
    assert(scan_half(s, 44, 43, true) == scan_half(s, 45, 43, true));
    assert(scan_half(s, 45, 43, true) == scan_half(s, 46, 43, true));
    assert(scan_half(s, 46, 43, true) == scan_half(s, 47, 43, true));
    assert(scan_half(s, 47, 43, true) == scan_half(s, 48, 43, true));
    assert(scan_half(s, 48, 43, true) == scan_half(s, 49, 43, true));
    assert(scan_half(s, 49, 43, true) == scan_half(s, 50, 43, true));
    assert(scan_half(s, 50, 43, true) == scan_half(s, 51, 43, true));
}

proof fn lemma_array_handler_0_2()
    ensures
        scan_half("\n                        {arr:local}.push({value:in});\n                        "@, 51, 43, true) == Some(79int),
{
    reveal_strlit("\n                        {arr:local}.push({value:in});\n                        ");
    let s = "\n                        {arr:local}.push({value:in});\n                        "@;
    assert(s.subrange(43, 51) =~= seq!['v', 'a', 'l', 'u', 'e', ':', 'i', 'n']);
    assert(is_word(seq!['v', 'a', 'l', 'u', 'e'])) by {
        let w = seq!['v', 'a', 'l', 'u', 'e'];
        assert forall|k: int| 0 <= k < 5 implies !is_whitespace_spec(#[trigger] w[k]) && w[k] != ':' by {
            assert(k == 0 || k == 1 || k == 2 || k == 3 || k == 4);
        }
    }
    assert(is_word(seq!['i', 'n'])) by {
        let w = seq!['i', 'n'];
        assert forall|k: int| 0 <= k < 2 implies !is_whitespace_spec(#[trigger] w[k]) && w[k] != ':' by {
            assert(k == 0 || k == 1);
        }
    }
    lemma_classify_variable(seq!['v', 'a', 'l', 'u', 'e'], seq!['i', 'n']);
    assert(seq!['v', 'a', 'l', 'u', 'e', ':', 'i', 'n'] =~= seq!['v', 'a', 'l', 'u', 'e'] + seq![':'] + seq!['i', 'n']);
    assert(scan_half(s, 51, 43, true) == scan_half(s, 52, 52, false));
    assert(scan_half(s, 52, 52, false) == scan_half(s, 53, 52, false));
    assert(scan_half(s, 53, 52, false) == scan_half(s, 54, 52, false));
    assert(skip_indents_spec(s, 55, 0) == (24nat, 79int)) by {
        assert(skip_indents_spec(s, 55, 0) == skip_indents_spec(s, 56, 1));
        assert(skip_indents_spec(s, 56, 1) == skip_indents_spec(s, 57, 2));
        assert(skip_indents_spec(s, 57, 2) == skip_indents_spec(s, 58, 3));
        assert(skip_indents_spec(s, 58, 3) == skip_indents_spec(s, 59, 4));
        assert(skip_indents_spec(s, 59, 4) == skip_indents_spec(s, 60, 5));
        assert(skip_indents_spec(s, 60, 5) == skip_indents_spec(s, 61, 6));
        assert(skip_indents_spec(s, 61, 6) == skip_indents_spec(s, 62, 7));
        assert(skip_indents_spec(s, 62, 7) == skip_indents_spec(s, 63, 8));
        assert(skip_indents_spec(s, 63, 8) == skip_indents_spec(s, 64, 9));
        assert(skip_indents_spec(s, 64, 9) == skip_indents_spec(s, 65, 10));
        assert(skip_indents_spec(s, 65, 10) == skip_indents_spec(s, 66, 11));
        assert(skip_indents_spec(s, 66, 11) == skip_indents_spec(s, 67, 12));
        assert(skip_indents_spec(s, 67, 12) == skip_indents_spec(s, 68, 13));
        assert(skip_indents_spec(s, 68, 13) == skip_indents_spec(s, 69, 14));
        assert(skip_indents_spec(s, 69, 14) == skip_indents_spec(s, 70, 15));
        assert(skip_indents_spec(s, 70, 15) == skip_indents_spec(s, 71, 16));
        assert(skip_indents_spec(s, 71, 16) == skip_indents_spec(s, 72, 17));
        assert(skip_indents_spec(s, 72, 17) == skip_indents_spec(s, 73, 18));
        assert(skip_indents_spec(s, 73, 18) == skip_indents_spec(s, 74, 19));
        assert(skip_indents_spec(s, 74, 19) == skip_indents_spec(s, 75, 20));
        assert(skip_indents_spec(s, 75, 20) == skip_indents_spec(s, 76, 21));
        assert(skip_indents_spec(s, 76, 21) == skip_indents_spec(s, 77, 22));
        assert(skip_indents_spec(s, 77, 22) == skip_indents_spec(s, 78, 23));
        assert(skip_indents_spec(s, 78, 23) == skip_indents_spec(s, 79, 24));
        assert(skip_indents_spec(s, 79, 24) == (24nat, 79int));
    }
    assert(scan_half(s, 54, 52, false) == scan_half(s, 79, 79, false));
    assert(scan_half(s, 79, 79, false) == Some(79int));
}

/// The end fragment of bracket 0 of the `array` builtin parses.
proof fn lemma_array_bracket_0()
    ensures
        template_parses("\n                    const {out:out} = {arr:local};\n                    {inner}\n                    "@),
{
    reveal_strlit("\n                    const {out:out} = {arr:local};\n                    {inner}\n                    ");
    let s = "\n                    const {out:out} = {arr:local};\n                    {inner}\n                    "@;
    assert(s.len() == 100);
    assert(skip_indents_spec(s, 0, 0) == (20nat, 21int)) by {
        assert(skip_indents_spec(s, 0, 0) == skip_indents_spec(s, 1, 0));
        assert(skip_indents_spec(s, 1, 0) == skip_indents_spec(s, 2, 1));
        assert(skip_indents_spec(s, 2, 1) == skip_indents_spec(s, 3, 2));
        assert(skip_indents_spec(s, 3, 2) == skip_indents_spec(s, 4, 3));
        assert(skip_indents_spec(s, 4, 3) == skip_indents_spec(s, 5, 4));
        assert(skip_indents_spec(s, 5, 4) == skip_indents_spec(s, 6, 5));
        assert(skip_indents_spec(s, 6, 5) == skip_indents_spec(s, 7, 6));
        assert(skip_indents_spec(s, 7, 6) == skip_indents_spec(s, 8, 7));
        assert(skip_indents_spec(s, 8, 7) == skip_indents_spec(s, 9, 8));
        assert(skip_indents_spec(s, 9, 8) == skip_indents_spec(s, 10, 9));
        assert(skip_indents_spec(s, 10, 9) == skip_indents_spec(s, 11, 10));
        assert(skip_indents_spec(s, 11, 10) == skip_indents_spec(s, 12, 11));
        assert(skip_indents_spec(s, 12, 11) == skip_indents_spec(s, 13, 12));
        assert(skip_indents_spec(s, 13, 12) == skip_indents_spec(s, 14, 13));
        assert(skip_indents_spec(s, 14, 13) == skip_indents_spec(s, 15, 14));
        assert(skip_indents_spec(s, 15, 14) == skip_indents_spec(s, 16, 15));
        assert(skip_indents_spec(s, 16, 15) == skip_indents_spec(s, 17, 16));
        assert(skip_indents_spec(s, 17, 16) == skip_indents_spec(s, 18, 17));
        assert(skip_indents_spec(s, 18, 17) == skip_indents_spec(s, 19, 18));
        assert(skip_indents_spec(s, 19, 18) == skip_indents_spec(s, 20, 19));
        assert(skip_indents_spec(s, 20, 19) == skip_indents_spec(s, 21, 20));
        assert(skip_indents_spec(s, 21, 20) == (20nat, 21int));
    }
    lemma_array_bracket_0_0();
    lemma_array_bracket_0_1();
    lemma_array_bracket_0_2();
    lemma_array_bracket_0_3();
}

proof fn lemma_array_bracket_0_0()
    ensures
        scan_half("\n                    const {out:out} = {arr:local};\n                    {inner}\n                    "@, 21, 21, false) == scan_half("\n                    const {out:out} = {arr:local};\n                    {inner}\n                    "@, 34, 28, true),
{
    reveal_strlit("\n                    const {out:out} = {arr:local};\n                    {inner}\n                    ");
    let s = "\n                    const {out:out} = {arr:local};\n                    {inner}\n                    "@;
    assert(scan_half(s, 21, 21, false) == scan_half(s, 22, 21, false));
    assert(scan_half(s, 22, 21, false) == scan_half(s, 23, 21, false));
    assert(scan_half(s, 23, 21, false) == scan_half(s, 24, 21, false));
    assert(scan_half(s, 24, 21, false) == scan_half(s, 25, 21, false));
    assert(scan_half(s, 25, 21, false) == scan_half(s, 26, 21, false));
    assert(scan_half(s, 26, 21, false) == scan_half(s, 27, 21, false));
    assert(scan_half(s, 27, 21, false) == scan_half(s, 29, 28, true));
    assert(scan_half(s, 29, 28, true) == scan_half(s, 30, 28, true));
    assert(scan_half(s, 30, 28, true) == scan_half(s, 31, 28, true));
    assert(scan_half(s, 31, 28, true) == scan_half(s, 32, 28, true));
    assert(scan_half(s, 32, 28, true) == scan_half(s, 33, 28, true));
    assert(scan_half(s, 33, 28, true) == scan_half(s, 34, 28, true));
}

proof fn lemma_array_bracket_0_1()
    ensures
        scan_half("\n                    const {out:out} = {arr:local};\n                    {inner}\n                    "@, 34, 28, true) == scan_half("\n                    const {out:out} = {arr:local};\n                    {inner}\n                    "@, 47, 40, true),
{
    reveal_strlit("\n                    const {out:out} = {arr:local};\n                    {inner}\n                    ");
    let s = "\n                    const {out:out} = {arr:local};\n                    {inner}\n                    "@;
    assert(scan_half(s, 34, 28, true) == scan_half(s, 35, 28, true));
    assert(s.subrange(28, 35) =~= seq!['o', 'u', 't', ':', 'o', 'u', 't']);
    assert(is_word(seq!['o', 'u', 't'])) by {
        let w = seq!['o', 'u', 't'];
        assert forall|k: int| 0 <= k < 3 implies !is_whitespace_spec(#[trigger] w[k]) && w[k] != ':' by {
            assert(k == 0 || k == 1 || k == 2);
        }
    }
    lemma_classify_variable(seq!['o', 'u', 't'], seq!['o', 'u', 't']);
    assert(seq!['o', 'u', 't', ':', 'o', 'u', 't'] =~= seq!['o', 'u', 't'] + seq![':'] + seq!['o', 'u', 't']);
    assert(scan_half(s, 35, 28, true) == scan_half(s, 36, 36, false));
    assert(scan_half(s, 36, 36, false) == scan_half(s, 37, 36, false));
    assert(scan_half(s, 37, 36, false) == scan_half(s, 38, 36, false));
    assert(scan_half(s, 38, 36, false) == scan_half(s, 39, 36, false));
    assert(scan_half(s, 39, 36, false) == scan_half(s, 41, 40, true));
    assert(scan_half(s, 41, 40, true) == scan_half(s, 42, 40, true));
    assert(scan_half(s, 42, 40, true) == scan_half(s, 43, 40, true));
    assert(scan_half(s, 43, 40, true) == scan_half(s, 44, 40, true));
    assert(scan_half(s, 44, 40, true) == scan_half(s, 45, 40, true));
    assert(scan_half(s, 45, 40, true) == scan_half(s, 46, 40, true));
    assert(scan_half(s, 46, 40, true) == scan_half(s, 47, 40, true));
}

proof fn lemma_array_bracket_0_2()
    ensures
        scan_half("\n                    const {out:out} = {arr:local};\n                    {inner}\n                    "@, 47, 40, true) == Some(79int),
{
    reveal_strlit("\n                    const {out:out} = {arr:local};\n                    {inner}\n                    ");
    let s = "\n                    const {out:out} = {arr:local};\n                    {inner}\n                    "@;
    assert(scan_half(s, 47, 40, true) == scan_half(s, 48, 40, true));
    assert(scan_half(s, 48, 40, true) == scan_half(s, 49, 40, true));
    assert(s.subrange(40, 49) =~= seq!['a', 'r', 'r', ':', 'l', 'o', 'c', 'a', 'l']);
    assert(is_word(seq!['a', 'r', 'r'])) by {
        let w = seq!['a', 'r', 'r'];
        assert forall|k: int| 0 <= k < 3 implies !is_whitespace_spec(#[trigger] w[k]) && w[k] != ':' by {
            assert(k == 0 || k == 1 || k == 2);
        }
    }
    assert(is_word(seq!['l', 'o', 'c', 'a', 'l'])) by {
        let w = seq!['l', 'o', 'c', 'a', 'l'];
        assert forall|k: int| 0 <= k < 5 implies !is_whitespace_spec(#[trigger] w[k]) && w[k] != ':' by {
            assert(k == 0 || k == 1 || k == 2 || k == 3 || k == 4);
        }
    }
    lemma_classify_variable(seq!['a', 'r', 'r'], seq!['l', 'o', 'c', 'a', 'l']);
    assert(seq!['a', 'r', 'r', ':', 'l', 'o', 'c', 'a', 'l'] =~= seq!['a', 'r', 'r'] + seq![':'] + seq!['l', 'o', 'c', 'a', 'l']);
    assert(scan_half(s, 49, 40, true) == scan_half(s, 50, 50, false));
    assert(scan_half(s, 50, 50, false) == scan_half(s, 51, 50, false));
    assert(skip_indents_spec(s, 52, 0) == (20nat, 72int)) by {
        assert(skip_indents_spec(s, 52, 0) == skip_indents_spec(s, 53, 1));
        assert(skip_indents_spec(s, 53, 1) == skip_indents_spec(s, 54, 2));
        assert(skip_indents_spec(s, 54, 2) == skip_indents_spec(s, 55, 3));
        assert(skip_indents_spec(s, 55, 3) == skip_indents_spec(s, 56, 4));
        assert(skip_indents_spec(s, 56, 4) == skip_indents_spec(s, 57, 5));
        assert(skip_indents_spec(s, 57, 5) == skip_indents_spec(s, 58, 6));
        assert(skip_indents_spec(s, 58, 6) == skip_indents_spec(s, 59, 7));
        assert(skip_indents_spec(s, 59, 7) == skip_indents_spec(s, 60, 8));
        assert(skip_indents_spec(s, 60, 8) == skip_indents_spec(s, 61, 9));
        assert(skip_indents_spec(s, 61, 9) == skip_indents_spec(s, 62, 10));
        assert(skip_indents_spec(s, 62, 10) == skip_indents_spec(s, 63, 11));
        assert(skip_indents_spec(s, 63, 11) == skip_indents_spec(s, 64, 12));
        assert(skip_indents_spec(s, 64, 12) == skip_indents_spec(s, 65, 13));
        assert(skip_indents_spec(s, 65, 13) == skip_indents_spec(s, 66, 14));
        assert(skip_indents_spec(s, 66, 14) == skip_indents_spec(s, 67, 15));
        assert(skip_indents_spec(s, 67, 15) == skip_indents_spec(s, 68, 16));
        assert(skip_indents_spec(s, 68, 16) == skip_indents_spec(s, 69, 17));
        assert(skip_indents_spec(s, 69, 17) == skip_indents_spec(s, 70, 18));
        assert(skip_indents_spec(s, 70, 18) == skip_indents_spec(s, 71, 19));
        assert(skip_indents_spec(s, 71, 19) == skip_indents_spec(s, 72, 20));
        assert(skip_indents_spec(s, 72, 20) == (20nat, 72int));
    }
    assert(scan_half(s, 51, 50, false) == scan_half(s, 72, 72, false));
    assert(scan_half(s, 72, 72, false) == scan_half(s, 74, 73, true));
    assert(scan_half(s, 74, 73, true) == scan_half(s, 75, 73, true));
    assert(scan_half(s, 75, 73, true) == scan_half(s, 76, 73, true));
    assert(scan_half(s, 76, 73, true) == scan_half(s, 77, 73, true));
    assert(scan_half(s, 77, 73, true) == scan_half(s, 78, 73, true));
    assert(s.subrange(73, 78) =~= seq!['i', 'n', 'n', 'e', 'r']);
    lemma_classify_inner();
    assert(seq!['i', 'n', 'n', 'e', 'r'] =~= inner_word());
    assert(scan_half(s, 78, 73, true) == Some(79int));
}

proof fn lemma_array_bracket_0_3()
    ensures
        scan_half("\n                    const {out:out} = {arr:local};\n                    {inner}\n                    "@, 79, 79, false) == Some(100int),
{
    reveal_strlit("\n                    const {out:out} = {arr:local};\n                    {inner}\n                    ");
    let s = "\n                    const {out:out} = {arr:local};\n                    {inner}\n                    "@;
    assert(skip_indents_spec(s, 80, 0) == (20nat, 100int)) by {
        assert(skip_indents_spec(s, 80, 0) == skip_indents_spec(s, 81, 1));
        assert(skip_indents_spec(s, 81, 1) == skip_indents_spec(s, 82, 2));
        assert(skip_indents_spec(s, 82, 2) == skip_indents_spec(s, 83, 3));
        assert(skip_indents_spec(s, 83, 3) == skip_indents_spec(s, 84, 4));
        assert(skip_indents_spec(s, 84, 4) == skip_indents_spec(s, 85, 5));
        assert(skip_indents_spec(s, 85, 5) == skip_indents_spec(s, 86, 6));
        assert(skip_indents_spec(s, 86, 6) == skip_indents_spec(s, 87, 7));
        assert(skip_indents_spec(s, 87, 7) == skip_indents_spec(s, 88, 8));
        assert(skip_indents_spec(s, 88, 8) == skip_indents_spec(s, 89, 9));
        assert(skip_indents_spec(s, 89, 9) == skip_indents_spec(s, 90, 10));
        assert(skip_indents_spec(s, 90, 10) == skip_indents_spec(s, 91, 11));
        assert(skip_indents_spec(s, 91, 11) == skip_indents_spec(s, 92, 12));
        assert(skip_indents_spec(s, 92, 12) == skip_indents_spec(s, 93, 13));
        assert(skip_indents_spec(s, 93, 13) == skip_indents_spec(s, 94, 14));
        assert(skip_indents_spec(s, 94, 14) == skip_indents_spec(s, 95, 15));
        assert(skip_indents_spec(s, 95, 15) == skip_indents_spec(s, 96, 16));
        assert(skip_indents_spec(s, 96, 16) == skip_indents_spec(s, 97, 17));
        assert(skip_indents_spec(s, 97, 17) == skip_indents_spec(s, 98, 18));
        assert(skip_indents_spec(s, 98, 18) == skip_indents_spec(s, 99, 19));
        assert(skip_indents_spec(s, 99, 19) == skip_indents_spec(s, 100, 20));
        assert(skip_indents_spec(s, 100, 20) == (20nat, 100int));
    }
    assert(scan_half(s, 79, 79, false) == scan_half(s, 100, 100, false));
    assert(scan_half(s, 100, 100, false) == Some(100int));
}

/// The `array` builtin builds from its templates.
proof fn lemma_array_builds()
    ensures
        build_builtin(builtin_sources_spec()[1]) is Ok,
{
    let b = builtin_sources_spec()[1];
    lemma_array_template();
    lemma_template_parses(b.template);
    lemma_array_handler_0();
    lemma_half_template_parses(handler_text(b.brackets[0]));
    lemma_array_bracket_0();
    lemma_template_parses(b.brackets[0].fragment);
    assert(build_bracket(b.brackets[0]) is Ok);
    lemma_build_brackets_ok(b.brackets);
}

/// The template of the `conditional` builtin parses.
proof fn lemma_conditional_template()
    ensures
        template_parses("\n            const { condition:local } = to_bool({condition_var:in});\n\n            const {if_true:local} = ()=>{{\n                {inner}\n            "@),
{
    reveal_strlit("\n            const { condition:local } = to_bool({condition_var:in});\n\n            const {if_true:local} = ()=>{{\n                {inner}\n            ");
    let s = "\n            const { condition:local } = to_bool({condition_var:in});\n\n            const {if_true:local} = ()=>{{\n                {inner}\n            "@;
    assert(s.len() == 150);
    assert(skip_indents_spec(s, 0, 0) == (12nat, 13int)) by {
        assert(skip_indents_spec(s, 0, 0) == skip_indents_spec(s, 1, 0));
        assert(skip_indents_spec(s, 1, 0) == skip_indents_spec(s, 2, 1));
        assert(skip_indents_spec(s, 2, 1) == skip_indents_spec(s, 3, 2));
        assert(skip_indents_spec(s, 3, 2) == skip_indents_spec(s, 4, 3));
        assert(skip_indents_spec(s, 4, 3) == skip_indents_spec(s, 5, 4));
        assert(skip_indents_spec(s, 5, 4) == skip_indents_spec(s, 6, 5));
        assert(skip_indents_spec(s, 6, 5) == skip_indents_spec(s, 7, 6));
        assert(skip_indents_spec(s, 7, 6) == skip_indents_spec(s, 8, 7));
        assert(skip_indents_spec(s, 8, 7) == skip_indents_spec(s, 9, 8));
        assert(skip_indents_spec(s, 9, 8) == skip_indents_spec(s, 10, 9));
        assert(skip_indents_spec(s, 10, 9) == skip_indents_spec(s, 11, 10));
        assert(skip_indents_spec(s, 11, 10) == skip_indents_spec(s, 12, 11));
        assert(skip_indents_spec(s, 12, 11) == skip_indents_spec(s, 13, 12));
        assert(skip_indents_spec(s, 13, 12) == (12nat, 13int));
    }
    lemma_conditional_template_0();
    lemma_conditional_template_1();
    lemma_conditional_template_2();
    lemma_conditional_template_3();
    lemma_conditional_template_4();
    lemma_conditional_template_5();
    lemma_conditional_template_6();
    lemma_conditional_template_7();
    lemma_conditional_template_8();
}

proof fn lemma_conditional_template_0()
    ensures
        scan_half("\n            const { condition:local } = to_bool({condition_var:in});\n\n            const {if_true:local} = ()=>{{\n                {inner}\n            "@, 13, 13, false) == scan_half("\n            const { condition:local } = to_bool({condition_var:in});\n\n            const {if_true:local} = ()=>{{\n                {inner}\n            "@, 26, 20, true),
{
    reveal_strlit("\n            const { condition:local } = to_bool({condition_var:in});\n\n            const {if_true:local} = ()=>{{\n                {inner}\n            ");
    let s = "\n            const { condition:local } = to_bool({condition_var:in});\n\n            const {if_true:local} = ()=>{{\n                {inner}\n            "@;
    assert(scan_half(s, 13, 13, false) == scan_half(s, 14, 13, false));
    assert(scan_half(s, 14, 13, false) == scan_half(s, 15, 13, false));
    assert(scan_half(s, 15, 13, false) == scan_half(s, 16, 13, false));
    assert(scan_half(s, 16, 13, false) == scan_half(s, 17, 13, false));
    assert(scan_half(s, 17, 13, false) == scan_half(s, 18, 13, false));
    assert(scan_half(s, 18, 13, false) == scan_half(s, 19, 13, false));
    assert(scan_half(s, 19, 13, false) == scan_half(s, 21, 20, true));
    assert(scan_half(s, 21, 20, true) == scan_half(s, 22, 20, true));
    assert(scan_half(s, 22, 20, true) == scan_half(s, 23, 20, true));
    assert(scan_half(s, 23, 20, true) == scan_half(s, 24, 20, true));
    assert(scan_half(s, 24, 20, true) == scan_half(s, 25, 20, true));
    assert(scan_half(s, 25, 20, true) == scan_half(s, 26, 20, true));
}

proof fn lemma_conditional_template_1()
    ensures
        scan_half("\n            const { condition:local } = to_bool({condition_var:in});\n\n            const {if_true:local} = ()=>{{\n                {inner}\n            "@, 26, 20, true) == scan_half("\n            const { condition:local } = to_bool({condition_var:in});\n\n            const {if_true:local} = ()=>{{\n                {inner}\n            "@, 38, 38, false),
{
    reveal_strlit("\n            const { condition:local } = to_bool({condition_var:in});\n\n            const {if_true:local} = ()=>{{\n                {inner}\n            ");
    let s = "\n            const { condition:local } = to_bool({condition_var:in});\n\n            const {if_true:local} = ()=>{{\n                {inner}\n            "@;
    assert(scan_half(s, 26, 20, true) == scan_half(s, 27, 20, true));
    assert(scan_half(s, 27, 20, true) == scan_half(s, 28, 20, true));
    assert(scan_half(s, 28, 20, true) == scan_half(s, 29, 20, true));
    assert(scan_half(s, 29, 20, true) == scan_half(s, 30, 20, true));
    assert(scan_half(s, 30, 20, true) == scan_half(s, 31, 20, true));
    assert(scan_half(s, 31, 20, true) == scan_half(s, 32, 20, true));
    assert(scan_half(s, 32, 20, true) == scan_half(s, 33, 20, true));
    assert(scan_half(s, 33, 20, true) == scan_half(s, 34, 20, true));
    assert(scan_half(s, 34, 20, true) == scan_half(s, 35, 20, true));
    assert(scan_half(s, 35, 20, true) == scan_half(s, 36, 20, true));
    assert(scan_half(s, 36, 20, true) == scan_half(s, 37, 20, true));
    assert(s.subrange(20, 37) =~= seq![' ', 'c', 'o', 'n', 'd', 'i', 't', 'i', 'o', 'n', ':', 'l', 'o', 'c', 'a', 'l', ' ']);
    assert(is_word(seq!['c', 'o', 'n', 'd', 'i', 't', 'i', 'o', 'n'])) by {
        let w = seq!['c', 'o', 'n', 'd', 'i', 't', 'i', 'o', 'n'];
        assert forall|k: int| 0 <= k < 9 implies !is_whitespace_spec(#[trigger] w[k]) && w[k] != ':' by {
            assert(k == 0 || k == 1 || k == 2 || k == 3 || k == 4 || k == 5 || k == 6 || k == 7 || k == 8);
        }
    }
    assert(is_word(seq!['l', 'o', 'c', 'a', 'l'])) by {
        let w = seq!['l', 'o', 'c', 'a', 'l'];
        assert forall|k: int| 0 <= k < 5 implies !is_whitespace_spec(#[trigger] w[k]) && w[k] != ':' by {
            assert(k == 0 || k == 1 || k == 2 || k == 3 || k == 4);
        }
    }
    lemma_classify_variable(seq!['c', 'o', 'n', 'd', 'i', 't', 'i', 'o', 'n'], seq!['l', 'o', 'c', 'a', 'l']);
    assert(seq![' ', 'c', 'o', 'n', 'd', 'i', 't', 'i', 'o', 'n', ':', 'l', 'o', 'c', 'a', 'l', ' '] =~= seq![' '] + (seq!['c', 'o', 'n', 'd', 'i', 't', 'i', 'o', 'n'] + seq![':'] + seq!['l', 'o', 'c', 'a', 'l']) + seq![' ']);
    assert(scan_half(s, 37, 20, true) == scan_half(s, 38, 38, false));
}

proof fn lemma_conditional_template_2()
    ensures
        scan_half("\n            const { condition:local } = to_bool({condition_var:in});\n\n            const {if_true:local} = ()=>{{\n                {inner}\n            "@, 38, 38, false) == scan_half("\n            const { condition:local } = to_bool({condition_var:in});\n\n            const {if_true:local} = ()=>{{\n                {inner}\n            "@, 51, 50, true),
{
    reveal_strlit("\n            const { condition:local } = to_bool({condition_var:in});\n\n            const {if_true:local} = ()=>{{\n                {inner}\n            ");
    let s = "\n            const { condition:local } = to_bool({condition_var:in});\n\n            const {if_true:local} = ()=>{{\n                {inner}\n            "@;
    assert(scan_half(s, 38, 38, false) == scan_half(s, 39, 38, false));
    assert(scan_half(s, 39, 38, false) == scan_half(s, 40, 38, false));
    assert(scan_half(s, 40, 38, false) == scan_half(s, 41, 38, false));
    assert(scan_half(s, 41, 38, false) == scan_half(s, 42, 38, false));
    assert(scan_half(s, 42, 38, false) == scan_half(s, 43, 38, false));
    assert(scan_half(s, 43, 38, false) == scan_half(s, 44, 38, false));
    assert(scan_half(s, 44, 38, false) == scan_half(s, 45, 38, false));
    assert(scan_half(s, 45, 38, false) == scan_half(s, 46, 38, false));
    assert(scan_half(s, 46, 38, false) == scan_half(s, 47, 38, false));
    assert(scan_half(s, 47, 38, false) == scan_half(s, 48, 38, false));
    assert(scan_half(s, 48, 38, false) == scan_half(s, 49, 38, false));
    assert(scan_half(s, 49, 38, false) == scan_half(s, 51, 50, true));
}

proof fn lemma_conditional_template_3()
    ensures
        scan_half("\n            const { condition:local } = to_bool({condition_var:in});\n\n            const {if_true:local} = ()=>{{\n                {inner}\n            "@, 51, 50, true) == scan_half("\n            const { condition:local } = to_bool({condition_var:in});\n\n            const {if_true:local} = ()=>{{\n                {inner}\n            "@, 63, 50, true),
{
    reveal_strlit("\n            const { condition:local } = to_bool({condition_var:in});\n\n            const {if_true:local} = ()=>{{\n                {inner}\n            ");
    let s = "\n            const { condition:local } = to_bool({condition_var:in});\n\n            const {if_true:local} = ()=>{{\n                {inner}\n            "@;
    assert(scan_half(s, 51, 50, true) == scan_half(s, 52, 50, true));
    assert(scan_half(s, 52, 50, true) == scan_half(s, 53, 50, true));
    assert(scan_half(s, 53, 50, true) == scan_half(s, 54, 50, true));
    assert(scan_half(s, 54, 50, true) == scan_half(s, 55, 50, true));
    assert(scan_half(s, 55, 50, true) == scan_half(s, 56, 50, true));
    assert(scan_half(s, 56, 50, true) == scan_half(s, 57, 50, true));
    assert(scan_half(s, 57, 50, true) == scan_half(s, 58, 50, true));
    assert(scan_half(s, 58, 50, true) == scan_half(s, 59, 50, true));
    assert(scan_half(s, 59, 50, true) == scan_half(s, 60, 50, true));
    assert(scan_half(s, 60, 50, true) == scan_half(s, 61, 50, true));
    assert(scan_half(s, 61, 50, true) == scan_half(s, 62, 50, true));
    assert(scan_half(s, 62, 50, true) == scan_half(s, 63, 50, true));
}

proof fn lemma_conditional_template_4()
    ensures
        scan_half("\n            const { condition:local } = to_bool({condition_var:in});\n\n            const {if_true:local} = ()=>{{\n                {inner}\n            "@, 63, 50, true) == scan_half("\n            const { condition:local } = to_bool({condition_var:in});\n\n            const {if_true:local} = ()=>{{\n                {inner}\n            "@, 88, 83, false),
{
    reveal_strlit("\n            const { condition:local } = to_bool({condition_var:in});\n\n            const {if_true:local} = ()=>{{\n                {inner}\n            ");
    let s = "\n            const { condition:local } = to_bool({condition_var:in});\n\n            const {if_true:local} = ()=>{{\n                {inner}\n            "@;
    assert(scan_half(s, 63, 50, true) == scan_half(s, 64, 50, true));
    assert(scan_half(s, 64, 50, true) == scan_half(s, 65, 50, true));
    assert(scan_half(s, 65, 50, true) == scan_half(s, 66, 50, true));
    assert(s.subrange(50, 66) =~= seq!['c', 'o', 'n', 'd', 'i', 't', 'i', 'o', 'n', '_', 'v', 'a', 'r', ':', 'i', 'n']);
    assert(is_word(seq!['c', 'o', 'n', 'd', 'i', 't', 'i', 'o', 'n', '_', 'v', 'a', 'r'])) by {
        let w = seq!['c', 'o', 'n', 'd', 'i', 't', 'i', 'o', 'n', '_', 'v', 'a', 'r'];
        assert forall|k: int| 0 <= k < 13 implies !is_whitespace_spec(#[trigger] w[k]) && w[k] != ':' by {
            assert(k == 0 || k == 1 || k == 2 || k == 3 || k == 4 || k == 5 || k == 6 || k == 7 || k == 8 || k == 9 || k == 10 || k == 11 || k == 12);
        }
    }
    assert(is_word(seq!['i', 'n'])) by {
        let w = seq!['i', 'n'];
        assert forall|k: int| 0 <= k < 2 implies !is_whitespace_spec(#[trigger] w[k]) && w[k] != ':' by {
            assert(k == 0 || k == 1);
        }
    }
    lemma_classify_variable(seq!['c', 'o', 'n', 'd', 'i', 't', 'i', 'o', 'n', '_', 'v', 'a', 'r'], seq!['i', 'n']);
    assert(seq!['c', 'o', 'n', 'd', 'i', 't', 'i', 'o', 'n', '_', 'v', 'a', 'r', ':', 'i', 'n'] =~= seq!['c', 'o', 'n', 'd', 'i', 't', 'i', 'o', 'n', '_', 'v', 'a', 'r'] + seq![':'] + seq!['i', 'n']);
    assert(scan_half(s, 66, 50, true) == scan_half(s, 67, 67, false));
    assert(scan_half(s, 67, 67, false) == scan_half(s, 68, 67, false));
    assert(scan_half(s, 68, 67, false) == scan_half(s, 69, 67, false));
    assert(skip_indents_spec(s, 70, 0) == (12nat, 83int)) by {
        assert(skip_indents_spec(s, 70, 0) == skip_indents_spec(s, 71, 0));
        assert(skip_indents_spec(s, 71, 0) == skip_indents_spec(s, 72, 1));
        assert(skip_indents_spec(s, 72, 1) == skip_indents_spec(s, 73, 2));
        assert(skip_indents_spec(s, 73, 2) == skip_indents_spec(s, 74, 3));
        assert(skip_indents_spec(s, 74, 3) == skip_indents_spec(s, 75, 4));
        assert(skip_indents_spec(s, 75, 4) == skip_indents_spec(s, 76, 5));
        assert(skip_indents_spec(s, 76, 5) == skip_indents_spec(s, 77, 6));
        assert(skip_indents_spec(s, 77, 6) == skip_indents_spec(s, 78, 7));
        assert(skip_indents_spec(s, 78, 7) == skip_indents_spec(s, 79, 8));
        assert(skip_indents_spec(s, 79, 8) == skip_indents_spec(s, 80, 9));
        assert(skip_indents_spec(s, 80, 9) == skip_indents_spec(s, 81, 10));
        assert(skip_indents_spec(s, 81, 10) == skip_indents_spec(s, 82, 11));
        assert(skip_indents_spec(s, 82, 11) == skip_indents_spec(s, 83, 12));
        assert(skip_indents_spec(s, 83, 12) == (12nat, 83int));
    }
    assert(scan_half(s, 69, 67, false) == scan_half(s, 83, 83, false));
    assert(scan_half(s, 83, 83, false) == scan_half(s, 84, 83, false));
    assert(scan_half(s, 84, 83, false) == scan_half(s, 85, 83, false));
    assert(scan_half(s, 85, 83, false) == scan_half(s, 86, 83, false));
    assert(scan_half(s, 86, 83, false) == scan_half(s, 87, 83, false));
    assert(scan_half(s, 87, 83, false) == scan_half(s, 88, 83, false));
}

proof fn lemma_conditional_template_5()
    ensures
        scan_half("\n            const { condition:local } = to_bool({condition_var:in});\n\n            const {if_true:local} = ()=>{{\n                {inner}\n            "@, 88, 83, false) == scan_half("\n            const { condition:local } = to_bool({condition_var:in});\n\n            const {if_true:local} = ()=>{{\n                {inner}\n            "@, 101, 90, true),
{
    reveal_strlit("\n            const { condition:local } = to_bool({condition_var:in});\n\n            const {if_true:local} = ()=>{{\n                {inner}\n            ");
    let s = "\n            const { condition:local } = to_bool({condition_var:in});\n\n            const {if_true:local} = ()=>{{\n                {inner}\n            "@;
    assert(scan_half(s, 88, 83, false) == scan_half(s, 89, 83, false));
    assert(scan_half(s, 89, 83, false) == scan_half(s, 91, 90, true));
    assert(scan_half(s, 91, 90, true) == scan_half(s, 92, 90, true));
    assert(scan_half(s, 92, 90, true) == scan_half(s, 93, 90, true));
    assert(scan_half(s, 93, 90, true) == scan_half(s, 94, 90, true));
    assert(scan_half(s, 94, 90, true) == scan_half(s, 95, 90, true));
    assert(scan_half(s, 95, 90, true) == scan_half(s, 96, 90, true));
    assert(scan_half(s, 96, 90, true) == scan_half(s, 97, 90, true));
    assert(scan_half(s, 97, 90, true) == scan_half(s, 98, 90, true));
    assert(scan_half(s, 98, 90, true) == scan_half(s, 99, 90, true));
    assert(scan_half(s, 99, 90, true) == scan_half(s, 100, 90, true));
    assert(scan_half(s, 100, 90, true) == scan_half(s, 101, 90, true));
}

proof fn lemma_conditional_template_6()
    ensures
        scan_half("\n            const { condition:local } = to_bool({condition_var:in});\n\n            const {if_true:local} = ()=>{{\n                {inner}\n            "@, 101, 90, true) == scan_half("\n            const { condition:local } = to_bool({condition_var:in});\n\n            const {if_true:local} = ()=>{{\n                {inner}\n            "@, 130, 130, false),
{
    reveal_strlit("\n            const { condition:local } = to_bool({condition_var:in});\n\n            const {if_true:local} = ()=>{{\n                {inner}\n            ");
    let s = "\n            const { condition:local } = to_bool({condition_var:in});\n\n            const {if_true:local} = ()=>{{\n                {inner}\n            "@;
    assert(scan_half(s, 101, 90, true) == scan_half(s, 102, 90, true));
    assert(scan_half(s, 102, 90, true) == scan_half(s, 103, 90, true));
    assert(s.subrange(90, 103) =~= seq!['i', 'f', '_', 't', 'r', 'u', 'e', ':', 'l', 'o', 'c', 'a', 'l']);
    assert(is_word(seq!['i', 'f', '_', 't', 'r', 'u', 'e'])) by {
        let w = seq!['i', 'f', '_', 't', 'r', 'u', 'e'];
        assert forall|k: int| 0 <= k < 7 implies !is_whitespace_spec(#[trigger] w[k]) && w[k] != ':' by {
            assert(k == 0 || k == 1 || k == 2 || k == 3 || k == 4 || k == 5 || k == 6);
        }
    }
    assert(is_word(seq!['l', 'o', 'c', 'a', 'l'])) by {
        let w = seq!['l', 'o', 'c', 'a', 'l'];
        assert forall|k: int| 0 <= k < 5 implies !is_whitespace_spec(#[trigger] w[k]) && w[k] != ':' by {
            assert(k == 0 || k == 1 || k == 2 || k == 3 || k == 4);
        }
    }
    lemma_classify_variable(seq!['i', 'f', '_', 't', 'r', 'u', 'e'], seq!['l', 'o', 'c', 'a', 'l']);
    assert(seq!['i', 'f', '_', 't', 'r', 'u', 'e', ':', 'l', 'o', 'c', 'a', 'l'] =~= seq!['i', 'f', '_', 't', 'r', 'u', 'e'] + seq![':'] + seq!['l', 'o', 'c', 'a', 'l']);
    assert(scan_half(s, 103, 90, true) == scan_half(s, 104, 104, false));
    assert(scan_half(s, 104, 104, false) == scan_half(s, 105, 104, false));
    assert(scan_half(s, 105, 104, false) == scan_half(s, 106, 104, false));
    assert(scan_half(s, 106, 104, false) == scan_half(s, 107, 104, false));
    assert(scan_half(s, 107, 104, false) == scan_half(s, 108, 104, false));
    assert(scan_half(s, 108, 104, false) == scan_half(s, 109, 104, false));
    assert(scan_half(s, 109, 104, false) == scan_half(s, 110, 104, false));
    assert(scan_half(s, 110, 104, false) == scan_half(s, 111, 104, false));
    assert(scan_half(s, 111, 104, false) == scan_half(s, 113, 112, false));
    assert(skip_indents_spec(s, 114, 0) == (16nat, 130int)) by {
        assert(skip_indents_spec(s, 114, 0) == skip_indents_spec(s, 115, 1));
        assert(skip_indents_spec(s, 115, 1) == skip_indents_spec(s, 116, 2));
        assert(skip_indents_spec(s, 116, 2) == skip_indents_spec(s, 117, 3));
        assert(skip_indents_spec(s, 117, 3) == skip_indents_spec(s, 118, 4));
        assert(skip_indents_spec(s, 118, 4) == skip_indents_spec(s, 119, 5));
        assert(skip_indents_spec(s, 119, 5) == skip_indents_spec(s, 120, 6));
        assert(skip_indents_spec(s, 120, 6) == skip_indents_spec(s, 121, 7));
        assert(skip_indents_spec(s, 121, 7) == skip_indents_spec(s, 122, 8));
        assert(skip_indents_spec(s, 122, 8) == skip_indents_spec(s, 123, 9));
        assert(skip_indents_spec(s, 123, 9) == skip_indents_spec(s, 124, 10));
        assert(skip_indents_spec(s, 124, 10) == skip_indents_spec(s, 125, 11));
        assert(skip_indents_spec(s, 125, 11) == skip_indents_spec(s, 126, 12));
        assert(skip_indents_spec(s, 126, 12) == skip_indents_spec(s, 127, 13));
        assert(skip_indents_spec(s, 127, 13) == skip_indents_spec(s, 128, 14));
        assert(skip_indents_spec(s, 128, 14) == skip_indents_spec(s, 129, 15));
        assert(skip_indents_spec(s, 129, 15) == skip_indents_spec(s, 130, 16));
        assert(skip_indents_spec(s, 130, 16) == (16nat, 130int));
    }
    assert(scan_half(s, 113, 112, false) == scan_half(s, 130, 130, false));
}

proof fn lemma_conditional_template_7()
    ensures
        scan_half("\n            const { condition:local } = to_bool({condition_var:in});\n\n            const {if_true:local} = ()=>{{\n                {inner}\n            "@, 130, 130, false) == Some(137int),
{
    reveal_strlit("\n            const { condition:local } = to_bool({condition_var:in});\n\n            const {if_true:local} = ()=>{{\n                {inner}\n            ");
    let s = "\n            const { condition:local } = to_bool({condition_var:in});\n\n            const {if_true:local} = ()=>{{\n                {inner}\n            "@;
    assert(scan_half(s, 130, 130, false) == scan_half(s, 132, 131, true));
    assert(scan_half(s, 132, 131, true) == scan_half(s, 133, 131, true));
    assert(scan_half(s, 133, 131, true) == scan_half(s, 134, 131, true));
    assert(scan_half(s, 134, 131, true) == scan_half(s, 135, 131, true));
    assert(scan_half(s, 135, 131, true) == scan_half(s, 136, 131, true));
    assert(s.subrange(131, 136) =~= seq!['i', 'n', 'n', 'e', 'r']);
    lemma_classify_inner();
    assert(seq!['i', 'n', 'n', 'e', 'r'] =~= inner_word());
    assert(scan_half(s, 136, 131, true) == Some(137int));
}

proof fn lemma_conditional_template_8()
    ensures
        scan_half("\n            const { condition:local } = to_bool({condition_var:in});\n\n            const {if_true:local} = ()=>{{\n                {inner}\n            "@, 137, 137, false) == Some(150int),
{
    reveal_strlit("\n            const { condition:local } = to_bool({condition_var:in});\n\n            const {if_true:local} = ()=>{{\n                {inner}\n            ");
    let s = "\n            const { condition:local } = to_bool({condition_var:in});\n\n            const {if_true:local} = ()=>{{\n                {inner}\n            "@;
    assert(skip_indents_spec(s, 138, 0) == (12nat, 150int)) by {
        assert(skip_indents_spec(s, 138, 0) == skip_indents_spec(s, 139, 1));
        assert(skip_indents_spec(s, 139, 1) == skip_indents_spec(s, 140, 2));
        assert(skip_indents_spec(s, 140, 2) == skip_indents_spec(s, 141, 3));
        assert(skip_indents_spec(s, 141, 3) == skip_indents_spec(s, 142, 4));
        assert(skip_indents_spec(s, 142, 4) == skip_indents_spec(s, 143, 5));
        assert(skip_indents_spec(s, 143, 5) == skip_indents_spec(s, 144, 6));
        assert(skip_indents_spec(s, 144, 6) == skip_indents_spec(s, 145, 7));
        assert(skip_indents_spec(s, 145, 7) == skip_indents_spec(s, 146, 8));
        assert(skip_indents_spec(s, 146, 8) == skip_indents_spec(s, 147, 9));
        assert(skip_indents_spec(s, 147, 9) == skip_indents_spec(s, 148, 10));
        assert(skip_indents_spec(s, 148, 10) == skip_indents_spec(s, 149, 11));
        assert(skip_indents_spec(s, 149, 11) == skip_indents_spec(s, 150, 12));
        assert(skip_indents_spec(s, 150, 12) == (12nat, 150int));
    }
    assert(scan_half(s, 137, 137, false) == scan_half(s, 150, 150, false));
    assert(scan_half(s, 150, 150, false) == Some(150int));
}

/// The end fragment of bracket 0 of the `conditional` builtin parses.
proof fn lemma_conditional_bracket_0()
    ensures
        template_parses("\n                    //\n                }}\n                const {if_false:local} = ()=>{{\n                    {inner}\n                }}\n                "@),
{
    reveal_strlit("\n                    //\n                }}\n                const {if_false:local} = ()=>{{\n                    {inner}\n                }}\n                ");
    let s = "\n                    //\n                }}\n                const {if_false:local} = ()=>{{\n                    {inner}\n                }}\n                "@;
    assert(s.len() == 154);
    assert(skip_indents_spec(s, 0, 0) == (20nat, 21int)) by {
        assert(skip_indents_spec(s, 0, 0) == skip_indents_spec(s, 1, 0));
        assert(skip_indents_spec(s, 1, 0) == skip_indents_spec(s, 2, 1));
        assert(skip_indents_spec(s, 2, 1) == skip_indents_spec(s, 3, 2));
        assert(skip_indents_spec(s, 3, 2) == skip_indents_spec(s, 4, 3));
        assert(skip_indents_spec(s, 4, 3) == skip_indents_spec(s, 5, 4));
        assert(skip_indents_spec(s, 5, 4) == skip_indents_spec(s, 6, 5));
        assert(skip_indents_spec(s, 6, 5) == skip_indents_spec(s, 7, 6));
        assert(skip_indents_spec(s, 7, 6) == skip_indents_spec(s, 8, 7));
        assert(skip_indents_spec(s, 8, 7) == skip_indents_spec(s, 9, 8));
        assert(skip_indents_spec(s, 9, 8) == skip_indents_spec(s, 10, 9));
        assert(skip_indents_spec(s, 10, 9) == skip_indents_spec(s, 11, 10));
        assert(skip_indents_spec(s, 11, 10) == skip_indents_spec(s, 12, 11));
        assert(skip_indents_spec(s, 12, 11) == skip_indents_spec(s, 13, 12));
        assert(skip_indents_spec(s, 13, 12) == skip_indents_spec(s, 14, 13));
        assert(skip_indents_spec(s, 14, 13) == skip_indents_spec(s, 15, 14));
        assert(skip_indents_spec(s, 15, 14) == skip_indents_spec(s, 16, 15));
        assert(skip_indents_spec(s, 16, 15) == skip_indents_spec(s, 17, 16));
        assert(skip_indents_spec(s, 17, 16) == skip_indents_spec(s, 18, 17));
        assert(skip_indents_spec(s, 18, 17) == skip_indents_spec(s, 19, 18));
        assert(skip_indents_spec(s, 19, 18) == skip_indents_spec(s, 20, 19));
        assert(skip_indents_spec(s, 20, 19) == skip_indents_spec(s, 21, 20));
        assert(skip_indents_spec(s, 21, 20) == (20nat, 21int));
    }
    lemma_conditional_bracket_0_0();
    lemma_conditional_bracket_0_1();
    lemma_conditional_bracket_0_2();
    lemma_conditional_bracket_0_3();
    lemma_conditional_bracket_0_4();
}

proof fn lemma_conditional_bracket_0_0()
    ensures
        scan_half("\n                    //\n                }}\n                const {if_false:local} = ()=>{{\n                    {inner}\n                }}\n                "@, 21, 21, false) == scan_half("\n                    //\n                }}\n                const {if_false:local} = ()=>{{\n                    {inner}\n                }}\n                "@, 67, 66, true),
{
    reveal_strlit("\n                    //\n                }}\n                const {if_false:local} = ()=>{{\n                    {inner}\n                }}\n                ");
    let s = "\n                    //\n                }}\n                const {if_false:local} = ()=>{{\n                    {inner}\n                }}\n                "@;
    assert(scan_half(s, 21, 21, false) == scan_half(s, 22, 21, false));
    assert(scan_half(s, 22, 21, false) == scan_half(s, 23, 21, false));
    assert(skip_indents_spec(s, 24, 0) == (16nat, 40int)) by {
        assert(skip_indents_spec(s, 24, 0) == skip_indents_spec(s, 25, 1));
        assert(skip_indents_spec(s, 25, 1) == skip_indents_spec(s, 26, 2));
        assert(skip_indents_spec(s, 26, 2) == skip_indents_spec(s, 27, 3));
        assert(skip_indents_spec(s, 27, 3) == skip_indents_spec(s, 28, 4));
        assert(skip_indents_spec(s, 28, 4) == skip_indents_spec(s, 29, 5));
        assert(skip_indents_spec(s, 29, 5) == skip_indents_spec(s, 30, 6));
        assert(skip_indents_spec(s, 30, 6) == skip_indents_spec(s, 31, 7));
        assert(skip_indents_spec(s, 31, 7) == skip_indents_spec(s, 32, 8));
        assert(skip_indents_spec(s, 32, 8) == skip_indents_spec(s, 33, 9));
        assert(skip_indents_spec(s, 33, 9) == skip_indents_spec(s, 34, 10));
        assert(skip_indents_spec(s, 34, 10) == skip_indents_spec(s, 35, 11));
        assert(skip_indents_spec(s, 35, 11) == skip_indents_spec(s, 36, 12));
        assert(skip_indents_spec(s, 36, 12) == skip_indents_spec(s, 37, 13));
        assert(skip_indents_spec(s, 37, 13) == skip_indents_spec(s, 38, 14));
        assert(skip_indents_spec(s, 38, 14) == skip_indents_spec(s, 39, 15));
        assert(skip_indents_spec(s, 39, 15) == skip_indents_spec(s, 40, 16));
        assert(skip_indents_spec(s, 40, 16) == (16nat, 40int));
    }
    assert(scan_half(s, 23, 21, false) == scan_half(s, 40, 40, false));
    assert(scan_half(s, 40, 40, false) == scan_half(s, 42, 41, false));
    assert(skip_indents_spec(s, 43, 0) == (16nat, 59int)) by {
        assert(skip_indents_spec(s, 43, 0) == skip_indents_spec(s, 44, 1));
        assert(skip_indents_spec(s, 44, 1) == skip_indents_spec(s, 45, 2));
        assert(skip_indents_spec(s, 45, 2) == skip_indents_spec(s, 46, 3));
        assert(skip_indents_spec(s, 46, 3) == skip_indents_spec(s, 47, 4));
        assert(skip_indents_spec(s, 47, 4) == skip_indents_spec(s, 48, 5));
        assert(skip_indents_spec(s, 48, 5) == skip_indents_spec(s, 49, 6));
        assert(skip_indents_spec(s, 49, 6) == skip_indents_spec(s, 50, 7));
        assert(skip_indents_spec(s, 50, 7) == skip_indents_spec(s, 51, 8));
        assert(skip_indents_spec(s, 51, 8) == skip_indents_spec(s, 52, 9));
        assert(skip_indents_spec(s, 52, 9) == skip_indents_spec(s, 53, 10));
        assert(skip_indents_spec(s, 53, 10) == skip_indents_spec(s, 54, 11));
        assert(skip_indents_spec(s, 54, 11) == skip_indents_spec(s, 55, 12));
        assert(skip_indents_spec(s, 55, 12) == skip_indents_spec(s, 56, 13));
        assert(skip_indents_spec(s, 56, 13) == skip_indents_spec(s, 57, 14));
        assert(skip_indents_spec(s, 57, 14) == skip_indents_spec(s, 58, 15));
        assert(skip_indents_spec(s, 58, 15) == skip_indents_spec(s, 59, 16));
        assert(skip_indents_spec(s, 59, 16) == (16nat, 59int));
    }
    assert(scan_half(s, 42, 41, false) == scan_half(s, 59, 59, false));
    assert(scan_half(s, 59, 59, false) == scan_half(s, 60, 59, false));
    assert(scan_half(s, 60, 59, false) == scan_half(s, 61, 59, false));
    assert(scan_half(s, 61, 59, false) == scan_half(s, 62, 59, false));
    assert(scan_half(s, 62, 59, false) == scan_half(s, 63, 59, false));
    assert(scan_half(s, 63, 59, false) == scan_half(s, 64, 59, false));
    assert(scan_half(s, 64, 59, false) == scan_half(s, 65, 59, false));
    assert(scan_half(s, 65, 59, false) == scan_half(s, 67, 66, true));
}

proof fn lemma_conditional_bracket_0_1()
    ensures
        scan_half("\n                    //\n                }}\n                const {if_false:local} = ()=>{{\n                    {inner}\n                }}\n                "@, 67, 66, true) == scan_half("\n                    //\n                }}\n                const {if_false:local} = ()=>{{\n                    {inner}\n                }}\n                "@, 79, 66, true),
{
    reveal_strlit("\n                    //\n                }}\n                const {if_false:local} = ()=>{{\n                    {inner}\n                }}\n                ");
    let s = "\n                    //\n                }}\n                const {if_false:local} = ()=>{{\n                    {inner}\n                }}\n                "@;
    assert(scan_half(s, 67, 66, true) == scan_half(s, 68, 66, true));
    assert(scan_half(s, 68, 66, true) == scan_half(s, 69, 66, true));
    assert(scan_half(s, 69, 66, true) == scan_half(s, 70, 66, true));
    assert(scan_half(s, 70, 66, true) == scan_half(s, 71, 66, true));
    assert(scan_half(s, 71, 66, true) == scan_half(s, 72, 66, true));
    assert(scan_half(s, 72, 66, true) == scan_half(s, 73, 66, true));
    assert(scan_half(s, 73, 66, true) == scan_half(s, 74, 66, true));
    assert(scan_half(s, 74, 66, true) == scan_half(s, 75, 66, true));
    assert(scan_half(s, 75, 66, true) == scan_half(s, 76, 66, true));
    assert(scan_half(s, 76, 66, true) == scan_half(s, 77, 66, true));
    assert(scan_half(s, 77, 66, true) == scan_half(s, 78, 66, true));
    assert(scan_half(s, 78, 66, true) == scan_half(s, 79, 66, true));
}

proof fn lemma_conditional_bracket_0_2()
    ensures
        scan_half("\n                    //\n                }}\n                const {if_false:local} = ()=>{{\n                    {inner}\n                }}\n                "@, 79, 66, true) == scan_half("\n                    //\n                }}\n                const {if_false:local} = ()=>{{\n                    {inner}\n                }}\n                "@, 113, 112, true),
{
    reveal_strlit("\n                    //\n                }}\n                const {if_false:local} = ()=>{{\n                    {inner}\n                }}\n                ");
    let s = "\n                    //\n                }}\n                const {if_false:local} = ()=>{{\n                    {inner}\n                }}\n                "@;
    assert(scan_half(s, 79, 66, true) == scan_half(s, 80, 66, true));
    assert(s.subrange(66, 80) =~= seq!['i', 'f', '_', 'f', 'a', 'l', 's', 'e', ':', 'l', 'o', 'c', 'a', 'l']);
    assert(is_word(seq!['i', 'f', '_', 'f', 'a', 'l', 's', 'e'])) by {
        let w = seq!['i', 'f', '_', 'f', 'a', 'l', 's', 'e'];
        assert forall|k: int| 0 <= k < 8 implies !is_whitespace_spec(#[trigger] w[k]) && w[k] != ':' by {
            assert(k == 0 || k == 1 || k == 2 || k == 3 || k == 4 || k == 5 || k == 6 || k == 7);
        }
    }
    assert(is_word(seq!['l', 'o', 'c', 'a', 'l'])) by {
        let w = seq!['l', 'o', 'c', 'a', 'l'];
        assert forall|k: int| 0 <= k < 5 implies !is_whitespace_spec(#[trigger] w[k]) && w[k] != ':' by {
            assert(k == 0 || k == 1 || k == 2 || k == 3 || k == 4);
        }
    }
    lemma_classify_variable(seq!['i', 'f', '_', 'f', 'a', 'l', 's', 'e'], seq!['l', 'o', 'c', 'a', 'l']);
    assert(seq!['i', 'f', '_', 'f', 'a', 'l', 's', 'e', ':', 'l', 'o', 'c', 'a', 'l'] =~= seq!['i', 'f', '_', 'f', 'a', 'l', 's', 'e'] + seq![':'] + seq!['l', 'o', 'c', 'a', 'l']);
    assert(scan_half(s, 80, 66, true) == scan_half(s, 81, 81, false));
    assert(scan_half(s, 81, 81, false) == scan_half(s, 82, 81, false));
    assert(scan_half(s, 82, 81, false) == scan_half(s, 83, 81, false));
    assert(scan_half(s, 83, 81, false) == scan_half(s, 84, 81, false));
    assert(scan_half(s, 84, 81, false) == scan_half(s, 85, 81, false));
    assert(scan_half(s, 85, 81, false) == scan_half(s, 86, 81, false));
    assert(scan_half(s, 86, 81, false) == scan_half(s, 87, 81, false));
    assert(scan_half(s, 87, 81, false) == scan_half(s, 88, 81, false));
    assert(scan_half(s, 88, 81, false) == scan_half(s, 90, 89, false));
    assert(skip_indents_spec(s, 91, 0) == (20nat, 111int)) by {
        assert(skip_indents_spec(s, 91, 0) == skip_indents_spec(s, 92, 1));
        assert(skip_indents_spec(s, 92, 1) == skip_indents_spec(s, 93, 2));
        assert(skip_indents_spec(s, 93, 2) == skip_indents_spec(s, 94, 3));
        assert(skip_indents_spec(s, 94, 3) == skip_indents_spec(s, 95, 4));
        assert(skip_indents_spec(s, 95, 4) == skip_indents_spec(s, 96, 5));
        assert(skip_indents_spec(s, 96, 5) == skip_indents_spec(s, 97, 6));
        assert(skip_indents_spec(s, 97, 6) == skip_indents_spec(s, 98, 7));
        assert(skip_indents_spec(s, 98, 7) == skip_indents_spec(s, 99, 8));
        assert(skip_indents_spec(s, 99, 8) == skip_indents_spec(s, 100, 9));
        assert(skip_indents_spec(s, 100, 9) == skip_indents_spec(s, 101, 10));
        assert(skip_indents_spec(s, 101, 10) == skip_indents_spec(s, 102, 11));
        assert(skip_indents_spec(s, 102, 11) == skip_indents_spec(s, 103, 12));
        assert(skip_indents_spec(s, 103, 12) == skip_indents_spec(s, 104, 13));
        assert(skip_indents_spec(s, 104, 13) == skip_indents_spec(s, 105, 14));
        assert(skip_indents_spec(s, 105, 14) == skip_indents_spec(s, 106, 15));
        assert(skip_indents_spec(s, 106, 15) == skip_indents_spec(s, 107, 16));
        assert(skip_indents_spec(s, 107, 16) == skip_indents_spec(s, 108, 17));
        assert(skip_indents_spec(s, 108, 17) == skip_indents_spec(s, 109, 18));
        assert(skip_indents_spec(s, 109, 18) == skip_indents_spec(s, 110, 19));
        assert(skip_indents_spec(s, 110, 19) == skip_indents_spec(s, 111, 20));
        assert(skip_indents_spec(s, 111, 20) == (20nat, 111int));
    }
    assert(scan_half(s, 90, 89, false) == scan_half(s, 111, 111, false));
    assert(scan_half(s, 111, 111, false) == scan_half(s, 113, 112, true));
}

proof fn lemma_conditional_bracket_0_3()
    ensures
        scan_half("\n                    //\n                }}\n                const {if_false:local} = ()=>{{\n                    {inner}\n                }}\n                "@, 113, 112, true) == Some(118int),
{
    reveal_strlit("\n                    //\n                }}\n                const {if_false:local} = ()=>{{\n                    {inner}\n                }}\n                ");
    let s = "\n                    //\n                }}\n                const {if_false:local} = ()=>{{\n                    {inner}\n                }}\n                "@;
    assert(scan_half(s, 113, 112, true) == scan_half(s, 114, 112, true));
    assert(scan_half(s, 114, 112, true) == scan_half(s, 115, 112, true));
    assert(scan_half(s, 115, 112, true) == scan_half(s, 116, 112, true));
    assert(scan_half(s, 116, 112, true) == scan_half(s, 117, 112, true));
    assert(s.subrange(112, 117) =~= seq!['i', 'n', 'n', 'e', 'r']);
    lemma_classify_inner();
    assert(seq!['i', 'n', 'n', 'e', 'r'] =~= inner_word());
    assert(scan_half(s, 117, 112, true) == Some(118int));
}

proof fn lemma_conditional_bracket_0_4()
    ensures
        scan_half("\n                    //\n                }}\n                const {if_false:local} = ()=>{{\n                    {inner}\n                }}\n                "@, 118, 118, false) == Some(154int),
{
    reveal_strlit("\n                    //\n                }}\n                const {if_false:local} = ()=>{{\n                    {inner}\n                }}\n                ");
    let s = "\n                    //\n                }}\n                const {if_false:local} = ()=>{{\n                    {inner}\n                }}\n                "@;
    assert(skip_indents_spec(s, 119, 0) == (16nat, 135int)) by {
        assert(skip_indents_spec(s, 119, 0) == skip_indents_spec(s, 120, 1));
        assert(skip_indents_spec(s, 120, 1) == skip_indents_spec(s, 121, 2));
        assert(skip_indents_spec(s, 121, 2) == skip_indents_spec(s, 122, 3));
        assert(skip_indents_spec(s, 122, 3) == skip_indents_spec(s, 123, 4));
        assert(skip_indents_spec(s, 123, 4) == skip_indents_spec(s, 124, 5));
        assert(skip_indents_spec(s, 124, 5) == skip_indents_spec(s, 125, 6));
        assert(skip_indents_spec(s, 125, 6) == skip_indents_spec(s, 126, 7));
        assert(skip_indents_spec(s, 126, 7) == skip_indents_spec(s, 127, 8));
        assert(skip_indents_spec(s, 127, 8) == skip_indents_spec(s, 128, 9));
        assert(skip_indents_spec(s, 128, 9) == skip_indents_spec(s, 129, 10));
        assert(skip_indents_spec(s, 129, 10) == skip_indents_spec(s, 130, 11));
        assert(skip_indents_spec(s, 130, 11) == skip_indents_spec(s, 131, 12));
        assert(skip_indents_spec(s, 131, 12) == skip_indents_spec(s, 132, 13));
        assert(skip_indents_spec(s, 132, 13) == skip_indents_spec(s, 133, 14));
        assert(skip_indents_spec(s, 133, 14) == skip_indents_spec(s, 134, 15));
        assert(skip_indents_spec(s, 134, 15) == skip_indents_spec(s, 135, 16));
        assert(skip_indents_spec(s, 135, 16) == (16nat, 135int));
    }
    assert(scan_half(s, 118, 118, false) == scan_half(s, 135, 135, false));
    assert(scan_half(s, 135, 135, false) == scan_half(s, 137, 136, false));
    assert(skip_indents_spec(s, 138, 0) == (16nat, 154int)) by {
        assert(skip_indents_spec(s, 138, 0) == skip_indents_spec(s, 139, 1));
        assert(skip_indents_spec(s, 139, 1) == skip_indents_spec(s, 140, 2));
        assert(skip_indents_spec(s, 140, 2) == skip_indents_spec(s, 141, 3));
        assert(skip_indents_spec(s, 141, 3) == skip_indents_spec(s, 142, 4));
        assert(skip_indents_spec(s, 142, 4) == skip_indents_spec(s, 143, 5));
        assert(skip_indents_spec(s, 143, 5) == skip_indents_spec(s, 144, 6));
        assert(skip_indents_spec(s, 144, 6) == skip_indents_spec(s, 145, 7));
        assert(skip_indents_spec(s, 145, 7) == skip_indents_spec(s, 146, 8));
        assert(skip_indents_spec(s, 146, 8) == skip_indents_spec(s, 147, 9));
        assert(skip_indents_spec(s, 147, 9) == skip_indents_spec(s, 148, 10));
        assert(skip_indents_spec(s, 148, 10) == skip_indents_spec(s, 149, 11));
        assert(skip_indents_spec(s, 149, 11) == skip_indents_spec(s, 150, 12));
        assert(skip_indents_spec(s, 150, 12) == skip_indents_spec(s, 151, 13));
        assert(skip_indents_spec(s, 151, 13) == skip_indents_spec(s, 152, 14));
        assert(skip_indents_spec(s, 152, 14) == skip_indents_spec(s, 153, 15));
        assert(skip_indents_spec(s, 153, 15) == skip_indents_spec(s, 154, 16));
        assert(skip_indents_spec(s, 154, 16) == (16nat, 154int));
    }
    assert(scan_half(s, 137, 136, false) == scan_half(s, 154, 154, false));
    assert(scan_half(s, 154, 154, false) == Some(154int));
}

/// The output handler of bracket 1 of the `conditional` builtin parses.
proof fn lemma_conditional_handler_1()
    ensures
        half_template_parses("\n                        {inner:local}({value:in})\n                        "@),
{
    reveal_strlit("\n                        {inner:local}({value:in})\n                        ");
    let s = "\n                        {inner:local}({value:in})\n                        "@;
    assert(s.len() == 75);
    assert(skip_indents_spec(s, 0, 0) == (24nat, 25int)) by {
        assert(skip_indents_spec(s, 0, 0) == skip_indents_spec(s, 1, 0));
        assert(skip_indents_spec(s, 1, 0) == skip_indents_spec(s, 2, 1));
        assert(skip_indents_spec(s, 2, 1) == skip_indents_spec(s, 3, 2));
        assert(skip_indents_spec(s, 3, 2) == skip_indents_spec(s, 4, 3));
        assert(skip_indents_spec(s, 4, 3) == skip_indents_spec(s, 5, 4));
        assert(skip_indents_spec(s, 5, 4) == skip_indents_spec(s, 6, 5));
        assert(skip_indents_spec(s, 6, 5) == skip_indents_spec(s, 7, 6));
        assert(skip_indents_spec(s, 7, 6) == skip_indents_spec(s, 8, 7));
        assert(skip_indents_spec(s, 8, 7) == skip_indents_spec(s, 9, 8));
        assert(skip_indents_spec(s, 9, 8) == skip_indents_spec(s, 10, 9));
        assert(skip_indents_spec(s, 10, 9) == skip_indents_spec(s, 11, 10));
        assert(skip_indents_spec(s, 11, 10) == skip_indents_spec(s, 12, 11));
        assert(skip_indents_spec(s, 12, 11) == skip_indents_spec(s, 13, 12));
        assert(skip_indents_spec(s, 13, 12) == skip_indents_spec(s, 14, 13));
        assert(skip_indents_spec(s, 14, 13) == skip_indents_spec(s, 15, 14));
        assert(skip_indents_spec(s, 15, 14) == skip_indents_spec(s, 16, 15));
        assert(skip_indents_spec(s, 16, 15) == skip_indents_spec(s, 17, 16));
        assert(skip_indents_spec(s, 17, 16) == skip_indents_spec(s, 18, 17));
        assert(skip_indents_spec(s, 18, 17) == skip_indents_spec(s, 19, 18));
        assert(skip_indents_spec(s, 19, 18) == skip_indents_spec(s, 20, 19));
        assert(skip_indents_spec(s, 20, 19) == skip_indents_spec(s, 21, 20));
        assert(skip_indents_spec(s, 21, 20) == skip_indents_spec(s, 22, 21));
        assert(skip_indents_spec(s, 22, 21) == skip_indents_spec(s, 23, 22));
        assert(skip_indents_spec(s, 23, 22) == skip_indents_spec(s, 24, 23));
        assert(skip_indents_spec(s, 24, 23) == skip_indents_spec(s, 25, 24));
        assert(skip_indents_spec(s, 25, 24) == (24nat, 25int));
    }
    lemma_conditional_handler_1_0();
    lemma_conditional_handler_1_1();
    lemma_conditional_handler_1_2();
}

proof fn lemma_conditional_handler_1_0()
    ensures
        scan_half("\n                        {inner:local}({value:in})\n                        "@, 25, 25, false) == scan_half("\n                        {inner:local}({value:in})\n                        "@, 38, 38, false),
{
    reveal_strlit("\n                        {inner:local}({value:in})\n                        ");
    let s = "\n                        {inner:local}({value:in})\n                        "@;
    assert(scan_half(s, 25, 25, false) == scan_half(s, 27, 26, true));
    assert(scan_half(s, 27, 26, true) == scan_half(s, 28, 26, true));
    assert(scan_half(s, 28, 26, true) == scan_half(s, 29, 26, true));
    assert(scan_half(s, 29, 26, true) == scan_half(s, 30, 26, true));
    assert(scan_half(s, 30, 26, true) == scan_half(s, 31, 26, true));
    assert(scan_half(s, 31, 26, true) == scan_half(s, 32, 26, true));
    assert(scan_half(s, 32, 26, true) == scan_half(s, 33, 26, true));
    assert(scan_half(s, 33, 26, true) == scan_half(s, 34, 26, true));
    assert(scan_half(s, 34, 26, true) == scan_half(s, 35, 26, true));
    assert(scan_half(s, 35, 26, true) == scan_half(s, 36, 26, true));
    assert(scan_half(s, 36, 26, true) == scan_half(s, 37, 26, true));
    assert(s.subrange(26, 37) =~= seq!['i', 'n', 'n', 'e', 'r', ':', 'l', 'o', 'c', 'a', 'l']);
    assert(is_word(seq!['i', 'n', 'n', 'e', 'r'])) by {
        let w = seq!['i', 'n', 'n', 'e', 'r'];
        assert forall|k: int| 0 <= k < 5 implies !is_whitespace_spec(#[trigger] w[k]) && w[k] != ':' by {
            assert(k == 0 || k == 1 || k == 2 || k == 3 || k == 4);
        }
    }
    assert(is_word(seq!['l', 'o', 'c', 'a', 'l'])) by {
        let w = seq!['l', 'o', 'c', 'a', 'l'];
        assert forall|k: int| 0 <= k < 5 implies !is_whitespace_spec(#[trigger] w[k]) && w[k] != ':' by {
            assert(k == 0 || k == 1 || k == 2 || k == 3 || k == 4);
        }
    }
    lemma_classify_variable(seq!['i', 'n', 'n', 'e', 'r'], seq!['l', 'o', 'c', 'a', 'l']);
    assert(seq!['i', 'n', 'n', 'e', 'r', ':', 'l', 'o', 'c', 'a', 'l'] =~= seq!['i', 'n', 'n', 'e', 'r'] + seq![':'] + seq!['l', 'o', 'c', 'a', 'l']);
    assert(scan_half(s, 37, 26, true) == scan_half(s, 38, 38, false));
}

proof fn lemma_conditional_handler_1_1()
    ensures
        scan_half("\n                        {inner:local}({value:in})\n                        "@, 38, 38, false) == scan_half("\n                        {inner:local}({value:in})\n                        "@, 75, 75, false),
{
    reveal_strlit("\n                        {inner:local}({value:in})\n                        ");
    let s = "\n                        {inner:local}({value:in})\n                        "@;
    assert(scan_half(s, 38, 38, false) == scan_half(s, 39, 38, false));
    assert(scan_half(s, 39, 38, false) == scan_half(s, 41, 40, true));
    assert(scan_half(s, 41, 40, true) == scan_half(s, 42, 40, true));
    assert(scan_half(s, 42, 40, true) == scan_half(s, 43, 40, true));
    assert(scan_half(s, 43, 40, true) == scan_half(s, 44, 40, true));
    assert(scan_half(s, 44, 40, true) == scan_half(s, 45, 40, true));
    assert(scan_half(s, 45, 40, true) == scan_half(s, 46, 40, true));
    assert(scan_half(s, 46, 40, true) == scan_half(s, 47, 40, true));
    assert(scan_half(s, 47, 40, true) == scan_half(s, 48, 40, true));
    assert(s.subrange(40, 48) =~= seq!['v', 'a', 'l', 'u', 'e', ':', 'i', 'n']);
    assert(is_word(seq!['v', 'a', 'l', 'u', 'e'])) by {
        let w = seq!['v', 'a', 'l', 'u', 'e'];
        assert forall|k: int| 0 <= k < 5 implies !is_whitespace_spec(#[trigger] w[k]) && w[k] != ':' by {
            assert(k == 0 || k == 1 || k == 2 || k == 3 || k == 4);
        }
    }
    assert(is_word(seq!['i', 'n'])) by {
        let w = seq!['i', 'n'];
        assert forall|k: int| 0 <= k < 2 implies !is_whitespace_spec(#[trigger] w[k]) && w[k] != ':' by {
            assert(k == 0 || k == 1);
        }
    }
    lemma_classify_variable(seq!['v', 'a', 'l', 'u', 'e'], seq!['i', 'n']);
    assert(seq!['v', 'a', 'l', 'u', 'e', ':', 'i', 'n'] =~= seq!['v', 'a', 'l', 'u', 'e'] + seq![':'] + seq!['i', 'n']);
    assert(scan_half(s, 48, 40, true) == scan_half(s, 49, 49, false));
    assert(scan_half(s, 49, 49, false) == scan_half(s, 50, 49, false));
    assert(skip_indents_spec(s, 51, 0) == (24nat, 75int)) by {
        assert(skip_indents_spec(s, 51, 0) == skip_indents_spec(s, 52, 1));
        assert(skip_indents_spec(s, 52, 1) == skip_indents_spec(s, 53, 2));
        assert(skip_indents_spec(s, 53, 2) == skip_indents_spec(s, 54, 3));
        assert(skip_indents_spec(s, 54, 3) == skip_indents_spec(s, 55, 4));
        assert(skip_indents_spec(s, 55, 4) == skip_indents_spec(s, 56, 5));
        assert(skip_indents_spec(s, 56, 5) == skip_indents_spec(s, 57, 6));
        assert(skip_indents_spec(s, 57, 6) == skip_indents_spec(s, 58, 7));
        assert(skip_indents_spec(s, 58, 7) == skip_indents_spec(s, 59, 8));
        assert(skip_indents_spec(s, 59, 8) == skip_indents_spec(s, 60, 9));
        assert(skip_indents_spec(s, 60, 9) == skip_indents_spec(s, 61, 10));
        assert(skip_indents_spec(s, 61, 10) == skip_indents_spec(s, 62, 11));
        assert(skip_indents_spec(s, 62, 11) == skip_indents_spec(s, 63, 12));
        assert(skip_indents_spec(s, 63, 12) == skip_indents_spec(s, 64, 13));
        assert(skip_indents_spec(s, 64, 13) == skip_indents_spec(s, 65, 14));
        assert(skip_indents_spec(s, 65, 14) == skip_indents_spec(s, 66, 15));
        assert(skip_indents_spec(s, 66, 15) == skip_indents_spec(s, 67, 16));
        assert(skip_indents_spec(s, 67, 16) == skip_indents_spec(s, 68, 17));
        assert(skip_indents_spec(s, 68, 17) == skip_indents_spec(s, 69, 18));
        assert(skip_indents_spec(s, 69, 18) == skip_indents_spec(s, 70, 19));
        assert(skip_indents_spec(s, 70, 19) == skip_indents_spec(s, 71, 20));
        assert(skip_indents_spec(s, 71, 20) == skip_indents_spec(s, 72, 21));
        assert(skip_indents_spec(s, 72, 21) == skip_indents_spec(s, 73, 22));
        assert(skip_indents_spec(s, 73, 22) == skip_indents_spec(s, 74, 23));
        assert(skip_indents_spec(s, 74, 23) == skip_indents_spec(s, 75, 24));
        assert(skip_indents_spec(s, 75, 24) == (24nat, 75int));
    }
    assert(scan_half(s, 50, 49, false) == scan_half(s, 75, 75, false));
}

proof fn lemma_conditional_handler_1_2()
    ensures
        scan_half("\n                        {inner:local}({value:in})\n                        "@, 75, 75, false) == Some(75int),
{
    reveal_strlit("\n                        {inner:local}({value:in})\n                        ");
    let s = "\n                        {inner:local}({value:in})\n                        "@;
    assert(scan_half(s, 75, 75, false) == Some(75int));
}

/// The end fragment of bracket 1 of the `conditional` builtin parses.
proof fn lemma_conditional_bracket_1()
    ensures
        template_parses("\n                    const {inner:local} = ({value:out}) => {{\n                        {inner}\n                    }}\n\n                    if ({condition:local}) {{\n                        {if_true:local}();\n                    }} else {{\n                        {if_false:local}();\n                    }}\n                "@),
{
    reveal_strlit("\n                    const {inner:local} = ({value:out}) => {{\n                        {inner}\n                    }}\n\n                    if ({condition:local}) {{\n                        {if_true:local}();\n                    }} else {{\n                        {if_false:local}();\n                    }}\n                ");
    let s = "\n                    const {inner:local} = ({value:out}) => {{\n                        {inner}\n                    }}\n\n                    if ({condition:local}) {{\n                        {if_true:local}();\n                    }} else {{\n                        {if_false:local}();\n                    }}\n                "@;
    assert(s.len() == 322);
    assert(skip_indents_spec(s, 0, 0) == (20nat, 21int)) by {
        assert(skip_indents_spec(s, 0, 0) == skip_indents_spec(s, 1, 0));
        assert(skip_indents_spec(s, 1, 0) == skip_indents_spec(s, 2, 1));
        assert(skip_indents_spec(s, 2, 1) == skip_indents_spec(s, 3, 2));
        assert(skip_indents_spec(s, 3, 2) == skip_indents_spec(s, 4, 3));
        assert(skip_indents_spec(s, 4, 3) == skip_indents_spec(s, 5, 4));
        assert(skip_indents_spec(s, 5, 4) == skip_indents_spec(s, 6, 5));
        assert(skip_indents_spec(s, 6, 5) == skip_indents_spec(s, 7, 6));
        assert(skip_indents_spec(s, 7, 6) == skip_indents_spec(s, 8, 7));
        assert(skip_indents_spec(s, 8, 7) == skip_indents_spec(s, 9, 8));
        assert(skip_indents_spec(s, 9, 8) == skip_indents_spec(s, 10, 9));
        assert(skip_indents_spec(s, 10, 9) == skip_indents_spec(s, 11, 10));
        assert(skip_indents_spec(s, 11, 10) == skip_indents_spec(s, 12, 11));
        assert(skip_indents_spec(s, 12, 11) == skip_indents_spec(s, 13, 12));
        assert(skip_indents_spec(s, 13, 12) == skip_indents_spec(s, 14, 13));
        assert(skip_indents_spec(s, 14, 13) == skip_indents_spec(s, 15, 14));
        assert(skip_indents_spec(s, 15, 14) == skip_indents_spec(s, 16, 15));
        assert(skip_indents_spec(s, 16, 15) == skip_indents_spec(s, 17, 16));
        assert(skip_indents_spec(s, 17, 16) == skip_indents_spec(s, 18, 17));
        assert(skip_indents_spec(s, 18, 17) == skip_indents_spec(s, 19, 18));
        assert(skip_indents_spec(s, 19, 18) == skip_indents_spec(s, 20, 19));
        assert(skip_indents_spec(s, 20, 19) == skip_indents_spec(s, 21, 20));
        assert(skip_indents_spec(s, 21, 20) == (20nat, 21int));
    }
    lemma_conditional_bracket_1_0();
    lemma_conditional_bracket_1_1();
    lemma_conditional_bracket_1_2();
    lemma_conditional_bracket_1_3();
    lemma_conditional_bracket_1_4();
    lemma_conditional_bracket_1_5();
    lemma_conditional_bracket_1_6();
    lemma_conditional_bracket_1_7();
    lemma_conditional_bracket_1_8();
    lemma_conditional_bracket_1_9();
    lemma_conditional_bracket_1_10();
}

proof fn lemma_conditional_bracket_1_0()
    ensures
        scan_half("\n                    const {inner:local} = ({value:out}) => {{\n                        {inner}\n                    }}\n\n                    if ({condition:local}) {{\n                        {if_true:local}();\n                    }} else {{\n                        {if_false:local}();\n                    }}\n                "@, 21, 21, false) == scan_half("\n                    const {inner:local} = ({value:out}) => {{\n                        {inner}\n                    }}\n\n                    if ({condition:local}) {{\n                        {if_true:local}();\n                    }} else {{\n                        {if_false:local}();\n                    }}\n                "@, 34, 28, true),
{
    reveal_strlit("\n                    const {inner:local} = ({value:out}) => {{\n                        {inner}\n                    }}\n\n                    if ({condition:local}) {{\n                        {if_true:local}();\n                    }} else {{\n                        {if_false:local}();\n                    }}\n                ");
    let s = "\n                    const {inner:local} = ({value:out}) => {{\n                        {inner}\n                    }}\n\n                    if ({condition:local}) {{\n                        {if_true:local}();\n                    }} else {{\n                        {if_false:local}();\n                    }}\n                "@;
    assert(scan_half(s, 21, 21, false) == scan_half(s, 22, 21, false));
    assert(scan_half(s, 22, 21, false) == scan_half(s, 23, 21, false));
    assert(scan_half(s, 23, 21, false) == scan_half(s, 24, 21, false));
    assert(scan_half(s, 24, 21, false) == scan_half(s, 25, 21, false));
    assert(scan_half(s, 25, 21, false) == scan_half(s, 26, 21, false));
    assert(scan_half(s, 26, 21, false) == scan_half(s, 27, 21, false));
    assert(scan_half(s, 27, 21, false) == scan_half(s, 29, 28, true));
    assert(scan_half(s, 29, 28, true) == scan_half(s, 30, 28, true));
    assert(scan_half(s, 30, 28, true) == scan_half(s, 31, 28, true));
    assert(scan_half(s, 31, 28, true) == scan_half(s, 32, 28, true));
    assert(scan_half(s, 32, 28, true) == scan_half(s, 33, 28, true));
    assert(scan_half(s, 33, 28, true) == scan_half(s, 34, 28, true));
}

proof fn lemma_conditional_bracket_1_1()
    ensures
        scan_half("\n                    const {inner:local} = ({value:out}) => {{\n                        {inner}\n                    }}\n\n                    if ({condition:local}) {{\n                        {if_true:local}();\n                    }} else {{\n                        {if_false:local}();\n                    }}\n                "@, 34, 28, true) == scan_half("\n                    const {inner:local} = ({value:out}) => {{\n                        {inner}\n                    }}\n\n                    if ({condition:local}) {{\n                        {if_true:local}();\n                    }} else {{\n                        {if_false:local}();\n                    }}\n                "@, 47, 45, true),
{
    reveal_strlit("\n                    const {inner:local} = ({value:out}) => {{\n                        {inner}\n                    }}\n\n                    if ({condition:local}) {{\n                        {if_true:local}();\n                    }} else {{\n                        {if_false:local}();\n                    }}\n                ");
    let s = "\n                    const {inner:local} = ({value:out}) => {{\n                        {inner}\n                    }}\n\n                    if ({condition:local}) {{\n                        {if_true:local}();\n                    }} else {{\n                        {if_false:local}();\n                    }}\n                "@;
    assert(scan_half(s, 34, 28, true) == scan_half(s, 35, 28, true));
    assert(scan_half(s, 35, 28, true) == scan_half(s, 36, 28, true));
    assert(scan_half(s, 36, 28, true) == scan_half(s, 37, 28, true));
    assert(scan_half(s, 37, 28, true) == scan_half(s, 38, 28, true));
    assert(scan_half(s, 38, 28, true) == scan_half(s, 39, 28, true));
    assert(s.subrange(28, 39) =~= seq!['i', 'n', 'n', 'e', 'r', ':', 'l', 'o', 'c', 'a', 'l']);
    assert(is_word(seq!['i', 'n', 'n', 'e', 'r'])) by {
        let w = seq!['i', 'n', 'n', 'e', 'r'];
        assert forall|k: int| 0 <= k < 5 implies !is_whitespace_spec(#[trigger] w[k]) && w[k] != ':' by {
            assert(k == 0 || k == 1 || k == 2 || k == 3 || k == 4);
        }
    }
    assert(is_word(seq!['l', 'o', 'c', 'a', 'l'])) by {
        let w = seq!['l', 'o', 'c', 'a', 'l'];
        assert forall|k: int| 0 <= k < 5 implies !is_whitespace_spec(#[trigger] w[k]) && w[k] != ':' by {
            assert(k == 0 || k == 1 || k == 2 || k == 3 || k == 4);
        }
    }
    lemma_classify_variable(seq!['i', 'n', 'n', 'e', 'r'], seq!['l', 'o', 'c', 'a', 'l']);
    assert(seq!['i', 'n', 'n', 'e', 'r', ':', 'l', 'o', 'c', 'a', 'l'] =~= seq!['i', 'n', 'n', 'e', 'r'] + seq![':'] + seq!['l', 'o', 'c', 'a', 'l']);
    assert(scan_half(s, 39, 28, true) == scan_half(s, 40, 40, false));
    assert(scan_half(s, 40, 40, false) == scan_half(s, 41, 40, false));
    assert(scan_half(s, 41, 40, false) == scan_half(s, 42, 40, false));
    assert(scan_half(s, 42, 40, false) == scan_half(s, 43, 40, false));
    assert(scan_half(s, 43, 40, false) == scan_half(s, 44, 40, false));
    assert(scan_half(s, 44, 40, false) == scan_half(s, 46, 45, true));
    assert(scan_half(s, 46, 45, true) == scan_half(s, 47, 45, true));
}

proof fn lemma_conditional_bracket_1_2()
    ensures
        scan_half("\n                    const {inner:local} = ({value:out}) => {{\n                        {inner}\n                    }}\n\n                    if ({condition:local}) {{\n                        {if_true:local}();\n                    }} else {{\n                        {if_false:local}();\n                    }}\n                "@, 47, 45, true) == scan_half("\n                    const {inner:local} = ({value:out}) => {{\n                        {inner}\n                    }}\n\n                    if ({condition:local}) {{\n                        {if_true:local}();\n                    }} else {{\n                        {if_false:local}();\n                    }}\n                "@, 59, 55, false),
{
    reveal_strlit("\n                    const {inner:local} = ({value:out}) => {{\n                        {inner}\n                    }}\n\n                    if ({condition:local}) {{\n                        {if_true:local}();\n                    }} else {{\n                        {if_false:local}();\n                    }}\n                ");
    let s = "\n                    const {inner:local} = ({value:out}) => {{\n                        {inner}\n                    }}\n\n                    if ({condition:local}) {{\n                        {if_true:local}();\n                    }} else {{\n                        {if_false:local}();\n                    }}\n                "@;
    assert(scan_half(s, 47, 45, true) == scan_half(s, 48, 45, true));
    assert(scan_half(s, 48, 45, true) == scan_half(s, 49, 45, true));
    assert(scan_half(s, 49, 45, true) == scan_half(s, 50, 45, true));
    assert(scan_half(s, 50, 45, true) == scan_half(s, 51, 45, true));
    assert(scan_half(s, 51, 45, true) == scan_half(s, 52, 45, true));
    assert(scan_half(s, 52, 45, true) == scan_half(s, 53, 45, true));
    assert(scan_half(s, 53, 45, true) == scan_half(s, 54, 45, true));
    assert(s.subrange(45, 54) =~= seq!['v', 'a', 'l', 'u', 'e', ':', 'o', 'u', 't']);
    assert(is_word(seq!['v', 'a', 'l', 'u', 'e'])) by {
        let w = seq!['v', 'a', 'l', 'u', 'e'];
        assert forall|k: int| 0 <= k < 5 implies !is_whitespace_spec(#[trigger] w[k]) && w[k] != ':' by {
            assert(k == 0 || k == 1 || k == 2 || k == 3 || k == 4);
        }
    }
    assert(is_word(seq!['o', 'u', 't'])) by {
        let w = seq!['o', 'u', 't'];
        assert forall|k: int| 0 <= k < 3 implies !is_whitespace_spec(#[trigger] w[k]) && w[k] != ':' by {
            assert(k == 0 || k == 1 || k == 2);
        }
    }
    lemma_classify_variable(seq!['v', 'a', 'l', 'u', 'e'], seq!['o', 'u', 't']);
    assert(seq!['v', 'a', 'l', 'u', 'e', ':', 'o', 'u', 't'] =~= seq!['v', 'a', 'l', 'u', 'e'] + seq![':'] + seq!['o', 'u', 't']);
    assert(scan_half(s, 54, 45, true) == scan_half(s, 55, 55, false));
    assert(scan_half(s, 55, 55, false) == scan_half(s, 56, 55, false));
    assert(scan_half(s, 56, 55, false) == scan_half(s, 57, 55, false));
    assert(scan_half(s, 57, 55, false) == scan_half(s, 58, 55, false));
    assert(scan_half(s, 58, 55, false) == scan_half(s, 59, 55, false));
}

proof fn lemma_conditional_bracket_1_3()
    ensures
        scan_half("\n                    const {inner:local} = ({value:out}) => {{\n                        {inner}\n                    }}\n\n                    if ({condition:local}) {{\n                        {if_true:local}();\n                    }} else {{\n                        {if_false:local}();\n                    }}\n                "@, 59, 55, false) == Some(94int),
{
    reveal_strlit("\n                    const {inner:local} = ({value:out}) => {{\n                        {inner}\n                    }}\n\n                    if ({condition:local}) {{\n                        {if_true:local}();\n                    }} else {{\n                        {if_false:local}();\n                    }}\n                ");
    let s = "\n                    const {inner:local} = ({value:out}) => {{\n                        {inner}\n                    }}\n\n                    if ({condition:local}) {{\n                        {if_true:local}();\n                    }} else {{\n                        {if_false:local}();\n                    }}\n                "@;
    assert(scan_half(s, 59, 55, false) == scan_half(s, 60, 55, false));
    assert(scan_half(s, 60, 55, false) == scan_half(s, 62, 61, false));
    assert(skip_indents_spec(s, 63, 0) == (24nat, 87int)) by {
        assert(skip_indents_spec(s, 63, 0) == skip_indents_spec(s, 64, 1));
        assert(skip_indents_spec(s, 64, 1) == skip_indents_spec(s, 65, 2));
        assert(skip_indents_spec(s, 65, 2) == skip_indents_spec(s, 66, 3));
        assert(skip_indents_spec(s, 66, 3) == skip_indents_spec(s, 67, 4));
        assert(skip_indents_spec(s, 67, 4) == skip_indents_spec(s, 68, 5));
        assert(skip_indents_spec(s, 68, 5) == skip_indents_spec(s, 69, 6));
        assert(skip_indents_spec(s, 69, 6) == skip_indents_spec(s, 70, 7));
        assert(skip_indents_spec(s, 70, 7) == skip_indents_spec(s, 71, 8));
        assert(skip_indents_spec(s, 71, 8) == skip_indents_spec(s, 72, 9));
        assert(skip_indents_spec(s, 72, 9) == skip_indents_spec(s, 73, 10));
        assert(skip_indents_spec(s, 73, 10) == skip_indents_spec(s, 74, 11));
        assert(skip_indents_spec(s, 74, 11) == skip_indents_spec(s, 75, 12));
        assert(skip_indents_spec(s, 75, 12) == skip_indents_spec(s, 76, 13));
        assert(skip_indents_spec(s, 76, 13) == skip_indents_spec(s, 77, 14));
        assert(skip_indents_spec(s, 77, 14) == skip_indents_spec(s, 78, 15));
        assert(skip_indents_spec(s, 78, 15) == skip_indents_spec(s, 79, 16));
        assert(skip_indents_spec(s, 79, 16) == skip_indents_spec(s, 80, 17));
        assert(skip_indents_spec(s, 80, 17) == skip_indents_spec(s, 81, 18));
        assert(skip_indents_spec(s, 81, 18) == skip_indents_spec(s, 82, 19));
        assert(skip_indents_spec(s, 82, 19) == skip_indents_spec(s, 83, 20));
        assert(skip_indents_spec(s, 83, 20) == skip_indents_spec(s, 84, 21));
        assert(skip_indents_spec(s, 84, 21) == skip_indents_spec(s, 85, 22));
        assert(skip_indents_spec(s, 85, 22) == skip_indents_spec(s, 86, 23));
        assert(skip_indents_spec(s, 86, 23) == skip_indents_spec(s, 87, 24));
        assert(skip_indents_spec(s, 87, 24) == (24nat, 87int));
    }
    assert(scan_half(s, 62, 61, false) == scan_half(s, 87, 87, false));
    assert(scan_half(s, 87, 87, false) == scan_half(s, 89, 88, true));
    assert(scan_half(s, 89, 88, true) == scan_half(s, 90, 88, true));
    assert(scan_half(s, 90, 88, true) == scan_half(s, 91, 88, true));
    assert(scan_half(s, 91, 88, true) == scan_half(s, 92, 88, true));
    assert(scan_half(s, 92, 88, true) == scan_half(s, 93, 88, true));
    assert(s.subrange(88, 93) =~= seq!['i', 'n', 'n', 'e', 'r']);
    lemma_classify_inner();
    assert(seq!['i', 'n', 'n', 'e', 'r'] =~= inner_word());
    assert(scan_half(s, 93, 88, true) == Some(94int));
}

proof fn lemma_conditional_bracket_1_4()
    ensures
        scan_half("\n                    const {inner:local} = ({value:out}) => {{\n                        {inner}\n                    }}\n\n                    if ({condition:local}) {{\n                        {if_true:local}();\n                    }} else {{\n                        {if_false:local}();\n                    }}\n                "@, 94, 94, false) == scan_half("\n                    const {inner:local} = ({value:out}) => {{\n                        {inner}\n                    }}\n\n                    if ({condition:local}) {{\n                        {if_true:local}();\n                    }} else {{\n                        {if_false:local}();\n                    }}\n                "@, 149, 144, true),
{
    reveal_strlit("\n                    const {inner:local} = ({value:out}) => {{\n                        {inner}\n                    }}\n\n                    if ({condition:local}) {{\n                        {if_true:local}();\n                    }} else {{\n                        {if_false:local}();\n                    }}\n                ");
    let s = "\n                    const {inner:local} = ({value:out}) => {{\n                        {inner}\n                    }}\n\n                    if ({condition:local}) {{\n                        {if_true:local}();\n                    }} else {{\n                        {if_false:local}();\n                    }}\n                "@;
    assert(skip_indents_spec(s, 95, 0) == (20nat, 115int)) by {
        assert(skip_indents_spec(s, 95, 0) == skip_indents_spec(s, 96, 1));
        assert(skip_indents_spec(s, 96, 1) == skip_indents_spec(s, 97, 2));
        assert(skip_indents_spec(s, 97, 2) == skip_indents_spec(s, 98, 3));
        assert(skip_indents_spec(s, 98, 3) == skip_indents_spec(s, 99, 4));
        assert(skip_indents_spec(s, 99, 4) == skip_indents_spec(s, 100, 5));
        assert(skip_indents_spec(s, 100, 5) == skip_indents_spec(s, 101, 6));
        assert(skip_indents_spec(s, 101, 6) == skip_indents_spec(s, 102, 7));
        assert(skip_indents_spec(s, 102, 7) == skip_indents_spec(s, 103, 8));
        assert(skip_indents_spec(s, 103, 8) == skip_indents_spec(s, 104, 9));
        assert(skip_indents_spec(s, 104, 9) == skip_indents_spec(s, 105, 10));
        assert(skip_indents_spec(s, 105, 10) == skip_indents_spec(s, 106, 11));
        assert(skip_indents_spec(s, 106, 11) == skip_indents_spec(s, 107, 12));
        assert(skip_indents_spec(s, 107, 12) == skip_indents_spec(s, 108, 13));
        assert(skip_indents_spec(s, 108, 13) == skip_indents_spec(s, 109, 14));
        assert(skip_indents_spec(s, 109, 14) == skip_indents_spec(s, 110, 15));
        assert(skip_indents_spec(s, 110, 15) == skip_indents_spec(s, 111, 16));
        assert(skip_indents_spec(s, 111, 16) == skip_indents_spec(s, 112, 17));
        assert(skip_indents_spec(s, 112, 17) == skip_indents_spec(s, 113, 18));
        assert(skip_indents_spec(s, 113, 18) == skip_indents_spec(s, 114, 19));
        assert(skip_indents_spec(s, 114, 19) == skip_indents_spec(s, 115, 20));
        assert(skip_indents_spec(s, 115, 20) == (20nat, 115int));
    }
    assert(scan_half(s, 94, 94, false) == scan_half(s, 115, 115, false));
    assert(scan_half(s, 115, 115, false) == scan_half(s, 117, 116, false));
    assert(skip_indents_spec(s, 118, 0) == (20nat, 139int)) by {
        assert(skip_indents_spec(s, 118, 0) == skip_indents_spec(s, 119, 0));
        assert(skip_indents_spec(s, 119, 0) == skip_indents_spec(s, 120, 1));
        assert(skip_indents_spec(s, 120, 1) == skip_indents_spec(s, 121, 2));
        assert(skip_indents_spec(s, 121, 2) == skip_indents_spec(s, 122, 3));
        assert(skip_indents_spec(s, 122, 3) == skip_indents_spec(s, 123, 4));
        assert(skip_indents_spec(s, 123, 4) == skip_indents_spec(s, 124, 5));
        assert(skip_indents_spec(s, 124, 5) == skip_indents_spec(s, 125, 6));
        assert(skip_indents_spec(s, 125, 6) == skip_indents_spec(s, 126, 7));
        assert(skip_indents_spec(s, 126, 7) == skip_indents_spec(s, 127, 8));
        assert(skip_indents_spec(s, 127, 8) == skip_indents_spec(s, 128, 9));
        assert(skip_indents_spec(s, 128, 9) == skip_indents_spec(s, 129, 10));
        assert(skip_indents_spec(s, 129, 10) == skip_indents_spec(s, 130, 11));
        assert(skip_indents_spec(s, 130, 11) == skip_indents_spec(s, 131, 12));
        assert(skip_indents_spec(s, 131, 12) == skip_indents_spec(s, 132, 13));
        assert(skip_indents_spec(s, 132, 13) == skip_indents_spec(s, 133, 14));
        assert(skip_indents_spec(s, 133, 14) == skip_indents_spec(s, 134, 15));
        assert(skip_indents_spec(s, 134, 15) == skip_indents_spec(s, 135, 16));
        assert(skip_indents_spec(s, 135, 16) == skip_indents_spec(s, 136, 17));
        assert(skip_indents_spec(s, 136, 17) == skip_indents_spec(s, 137, 18));
        assert(skip_indents_spec(s, 137, 18) == skip_indents_spec(s, 138, 19));
        assert(skip_indents_spec(s, 138, 19) == skip_indents_spec(s, 139, 20));
        assert(skip_indents_spec(s, 139, 20) == (20nat, 139int));
    }
    assert(scan_half(s, 117, 116, false) == scan_half(s, 139, 139, false));
    assert(scan_half(s, 139, 139, false) == scan_half(s, 140, 139, false));
    assert(scan_half(s, 140, 139, false) == scan_half(s, 141, 139, false));
    assert(scan_half(s, 141, 139, false) == scan_half(s, 142, 139, false));
    assert(scan_half(s, 142, 139, false) == scan_half(s, 143, 139, false));
    assert(scan_half(s, 143, 139, false) == scan_half(s, 145, 144, true));
    assert(scan_half(s, 145, 144, true) == scan_half(s, 146, 144, true));
    assert(scan_half(s, 146, 144, true) == scan_half(s, 147, 144, true));
    assert(scan_half(s, 147, 144, true) == scan_half(s, 148, 144, true));
    assert(scan_half(s, 148, 144, true) == scan_half(s, 149, 144, true));
}

proof fn lemma_conditional_bracket_1_5()
    ensures
        scan_half("\n                    const {inner:local} = ({value:out}) => {{\n                        {inner}\n                    }}\n\n                    if ({condition:local}) {{\n                        {if_true:local}();\n                    }} else {{\n                        {if_false:local}();\n                    }}\n                "@, 149, 144, true) == scan_half("\n                    const {inner:local} = ({value:out}) => {{\n                        {inner}\n                    }}\n\n                    if ({condition:local}) {{\n                        {if_true:local}();\n                    }} else {{\n                        {if_false:local}();\n                    }}\n                "@, 161, 160, false),
{
    reveal_strlit("\n                    const {inner:local} = ({value:out}) => {{\n                        {inner}\n                    }}\n\n                    if ({condition:local}) {{\n                        {if_true:local}();\n                    }} else {{\n                        {if_false:local}();\n                    }}\n                ");
    let s = "\n                    const {inner:local} = ({value:out}) => {{\n                        {inner}\n                    }}\n\n                    if ({condition:local}) {{\n                        {if_true:local}();\n                    }} else {{\n                        {if_false:local}();\n                    }}\n                "@;
    assert(scan_half(s, 149, 144, true) == scan_half(s, 150, 144, true));
    assert(scan_half(s, 150, 144, true) == scan_half(s, 151, 144, true));
    assert(scan_half(s, 151, 144, true) == scan_half(s, 152, 144, true));
    assert(scan_half(s, 152, 144, true) == scan_half(s, 153, 144, true));
    assert(scan_half(s, 153, 144, true) == scan_half(s, 154, 144, true));
    assert(scan_half(s, 154, 144, true) == scan_half(s, 155, 144, true));
    assert(scan_half(s, 155, 144, true) == scan_half(s, 156, 144, true));
    assert(scan_half(s, 156, 144, true) == scan_half(s, 157, 144, true));
    assert(scan_half(s, 157, 144, true) == scan_half(s, 158, 144, true));
    assert(scan_half(s, 158, 144, true) == scan_half(s, 159, 144, true));
    assert(s.subrange(144, 159) =~= seq!['c', 'o', 'n', 'd', 'i', 't', 'i', 'o', 'n', ':', 'l', 'o', 'c', 'a', 'l']);
    assert(is_word(seq!['c', 'o', 'n', 'd', 'i', 't', 'i', 'o', 'n'])) by {
        let w = seq!['c', 'o', 'n', 'd', 'i', 't', 'i', 'o', 'n'];
        assert forall|k: int| 0 <= k < 9 implies !is_whitespace_spec(#[trigger] w[k]) && w[k] != ':' by {
            assert(k == 0 || k == 1 || k == 2 || k == 3 || k == 4 || k == 5 || k == 6 || k == 7 || k == 8);
        }
    }
    assert(is_word(seq!['l', 'o', 'c', 'a', 'l'])) by {
        let w = seq!['l', 'o', 'c', 'a', 'l'];
        assert forall|k: int| 0 <= k < 5 implies !is_whitespace_spec(#[trigger] w[k]) && w[k] != ':' by {
            assert(k == 0 || k == 1 || k == 2 || k == 3 || k == 4);
        }
    }
    lemma_classify_variable(seq!['c', 'o', 'n', 'd', 'i', 't', 'i', 'o', 'n'], seq!['l', 'o', 'c', 'a', 'l']);
    assert(seq!['c', 'o', 'n', 'd', 'i', 't', 'i', 'o', 'n', ':', 'l', 'o', 'c', 'a', 'l'] =~= seq!['c', 'o', 'n', 'd', 'i', 't', 'i', 'o', 'n'] + seq![':'] + seq!['l', 'o', 'c', 'a', 'l']);
    assert(scan_half(s, 159, 144, true) == scan_half(s, 160, 160, false));
    assert(scan_half(s, 160, 160, false) == scan_half(s, 161, 160, false));
}

proof fn lemma_conditional_bracket_1_6()
    ensures
        scan_half("\n                    const {inner:local} = ({value:out}) => {{\n                        {inner}\n                    }}\n\n                    if ({condition:local}) {{\n                        {if_true:local}();\n                    }} else {{\n                        {if_false:local}();\n                    }}\n                "@, 161, 160, false) == scan_half("\n                    const {inner:local} = ({value:out}) => {{\n                        {inner}\n                    }}\n\n                    if ({condition:local}) {{\n                        {if_true:local}();\n                    }} else {{\n                        {if_false:local}();\n                    }}\n                "@, 199, 190, true),
{
    reveal_strlit("\n                    const {inner:local} = ({value:out}) => {{\n                        {inner}\n                    }}\n\n                    if ({condition:local}) {{\n                        {if_true:local}();\n                    }} else {{\n                        {if_false:local}();\n                    }}\n                ");
    let s = "\n                    const {inner:local} = ({value:out}) => {{\n                        {inner}\n                    }}\n\n                    if ({condition:local}) {{\n                        {if_true:local}();\n                    }} else {{\n                        {if_false:local}();\n                    }}\n                "@;
    assert(scan_half(s, 161, 160, false) == scan_half(s, 162, 160, false));
    assert(scan_half(s, 162, 160, false) == scan_half(s, 164, 163, false));
    assert(skip_indents_spec(s, 165, 0) == (24nat, 189int)) by {
        assert(skip_indents_spec(s, 165, 0) == skip_indents_spec(s, 166, 1));
        assert(skip_indents_spec(s, 166, 1) == skip_indents_spec(s, 167, 2));
        assert(skip_indents_spec(s, 167, 2) == skip_indents_spec(s, 168, 3));
        assert(skip_indents_spec(s, 168, 3) == skip_indents_spec(s, 169, 4));
        assert(skip_indents_spec(s, 169, 4) == skip_indents_spec(s, 170, 5));
        assert(skip_indents_spec(s, 170, 5) == skip_indents_spec(s, 171, 6));
        assert(skip_indents_spec(s, 171, 6) == skip_indents_spec(s, 172, 7));
        assert(skip_indents_spec(s, 172, 7) == skip_indents_spec(s, 173, 8));
        assert(skip_indents_spec(s, 173, 8) == skip_indents_spec(s, 174, 9));
        assert(skip_indents_spec(s, 174, 9) == skip_indents_spec(s, 175, 10));
        assert(skip_indents_spec(s, 175, 10) == skip_indents_spec(s, 176, 11));
        assert(skip_indents_spec(s, 176, 11) == skip_indents_spec(s, 177, 12));
        assert(skip_indents_spec(s, 177, 12) == skip_indents_spec(s, 178, 13));
        assert(skip_indents_spec(s, 178, 13) == skip_indents_spec(s, 179, 14));
        assert(skip_indents_spec(s, 179, 14) == skip_indents_spec(s, 180, 15));
        assert(skip_indents_spec(s, 180, 15) == skip_indents_spec(s, 181, 16));
        assert(skip_indents_spec(s, 181, 16) == skip_indents_spec(s, 182, 17));
        assert(skip_indents_spec(s, 182, 17) == skip_indents_spec(s, 183, 18));
        assert(skip_indents_spec(s, 183, 18) == skip_indents_spec(s, 184, 19));
        assert(skip_indents_spec(s, 184, 19) == skip_indents_spec(s, 185, 20));
        assert(skip_indents_spec(s, 185, 20) == skip_indents_spec(s, 186, 21));
        assert(skip_indents_spec(s, 186, 21) == skip_indents_spec(s, 187, 22));
        assert(skip_indents_spec(s, 187, 22) == skip_indents_spec(s, 188, 23));
        assert(skip_indents_spec(s, 188, 23) == skip_indents_spec(s, 189, 24));
        assert(skip_indents_spec(s, 189, 24) == (24nat, 189int));
    }
    assert(scan_half(s, 164, 163, false) == scan_half(s, 189, 189, false));
    assert(scan_half(s, 189, 189, false) == scan_half(s, 191, 190, true));
    assert(scan_half(s, 191, 190, true) == scan_half(s, 192, 190, true));
    assert(scan_half(s, 192, 190, true) == scan_half(s, 193, 190, true));
    assert(scan_half(s, 193, 190, true) == scan_half(s, 194, 190, true));
    assert(scan_half(s, 194, 190, true) == scan_half(s, 195, 190, true));
    assert(scan_half(s, 195, 190, true) == scan_half(s, 196, 190, true));
    assert(scan_half(s, 196, 190, true) == scan_half(s, 197, 190, true));
    assert(scan_half(s, 197, 190, true) == scan_half(s, 198, 190, true));
    assert(scan_half(s, 198, 190, true) == scan_half(s, 199, 190, true));
}

proof fn lemma_conditional_bracket_1_7()
    ensures
        scan_half("\n                    const {inner:local} = ({value:out}) => {{\n                        {inner}\n                    }}\n\n                    if ({condition:local}) {{\n                        {if_true:local}();\n                    }} else {{\n                        {if_false:local}();\n                    }}\n                "@, 199, 190, true) == scan_half("\n                    const {inner:local} = ({value:out}) => {{\n                        {inner}\n                    }}\n\n                    if ({condition:local}) {{\n                        {if_true:local}();\n                    }} else {{\n                        {if_false:local}();\n                    }}\n                "@, 232, 229, false),
{
    reveal_strlit("\n                    const {inner:local} = ({value:out}) => {{\n                        {inner}\n                    }}\n\n                    if ({condition:local}) {{\n                        {if_true:local}();\n                    }} else {{\n                        {if_false:local}();\n                    }}\n                ");
    let s = "\n                    const {inner:local} = ({value:out}) => {{\n                        {inner}\n                    }}\n\n                    if ({condition:local}) {{\n                        {if_true:local}();\n                    }} else {{\n                        {if_false:local}();\n                    }}\n                "@;
    assert(scan_half(s, 199, 190, true) == scan_half(s, 200, 190, true));
    assert(scan_half(s, 200, 190, true) == scan_half(s, 201, 190, true));
    assert(scan_half(s, 201, 190, true) == scan_half(s, 202, 190, true));
    assert(scan_half(s, 202, 190, true) == scan_half(s, 203, 190, true));
    assert(s.subrange(190, 203) =~= seq!['i', 'f', '_', 't', 'r', 'u', 'e', ':', 'l', 'o', 'c', 'a', 'l']);
    assert(is_word(seq!['i', 'f', '_', 't', 'r', 'u', 'e'])) by {
        let w = seq!['i', 'f', '_', 't', 'r', 'u', 'e'];
        assert forall|k: int| 0 <= k < 7 implies !is_whitespace_spec(#[trigger] w[k]) && w[k] != ':' by {
            assert(k == 0 || k == 1 || k == 2 || k == 3 || k == 4 || k == 5 || k == 6);
        }
    }
    assert(is_word(seq!['l', 'o', 'c', 'a', 'l'])) by {
        let w = seq!['l', 'o', 'c', 'a', 'l'];
        assert forall|k: int| 0 <= k < 5 implies !is_whitespace_spec(#[trigger] w[k]) && w[k] != ':' by {
            assert(k == 0 || k == 1 || k == 2 || k == 3 || k == 4);
        }
    }
    lemma_classify_variable(seq!['i', 'f', '_', 't', 'r', 'u', 'e'], seq!['l', 'o', 'c', 'a', 'l']);
    assert(seq!['i', 'f', '_', 't', 'r', 'u', 'e', ':', 'l', 'o', 'c', 'a', 'l'] =~= seq!['i', 'f', '_', 't', 'r', 'u', 'e'] + seq![':'] + seq!['l', 'o', 'c', 'a', 'l']);
    assert(scan_half(s, 203, 190, true) == scan_half(s, 204, 204, false));
    assert(scan_half(s, 204, 204, false) == scan_half(s, 205, 204, false));
    assert(scan_half(s, 205, 204, false) == scan_half(s, 206, 204, false));
    assert(scan_half(s, 206, 204, false) == scan_half(s, 207, 204, false));
    assert(skip_indents_spec(s, 208, 0) == (20nat, 228int)) by {
        assert(skip_indents_spec(s, 208, 0) == skip_indents_spec(s, 209, 1));
        assert(skip_indents_spec(s, 209, 1) == skip_indents_spec(s, 210, 2));
        assert(skip_indents_spec(s, 210, 2) == skip_indents_spec(s, 211, 3));
        assert(skip_indents_spec(s, 211, 3) == skip_indents_spec(s, 212, 4));
        assert(skip_indents_spec(s, 212, 4) == skip_indents_spec(s, 213, 5));
        assert(skip_indents_spec(s, 213, 5) == skip_indents_spec(s, 214, 6));
        assert(skip_indents_spec(s, 214, 6) == skip_indents_spec(s, 215, 7));
        assert(skip_indents_spec(s, 215, 7) == skip_indents_spec(s, 216, 8));
        assert(skip_indents_spec(s, 216, 8) == skip_indents_spec(s, 217, 9));
        assert(skip_indents_spec(s, 217, 9) == skip_indents_spec(s, 218, 10));
        assert(skip_indents_spec(s, 218, 10) == skip_indents_spec(s, 219, 11));
        assert(skip_indents_spec(s, 219, 11) == skip_indents_spec(s, 220, 12));
        assert(skip_indents_spec(s, 220, 12) == skip_indents_spec(s, 221, 13));
        assert(skip_indents_spec(s, 221, 13) == skip_indents_spec(s, 222, 14));
        assert(skip_indents_spec(s, 222, 14) == skip_indents_spec(s, 223, 15));
        assert(skip_indents_spec(s, 223, 15) == skip_indents_spec(s, 224, 16));
        assert(skip_indents_spec(s, 224, 16) == skip_indents_spec(s, 225, 17));
        assert(skip_indents_spec(s, 225, 17) == skip_indents_spec(s, 226, 18));
        assert(skip_indents_spec(s, 226, 18) == skip_indents_spec(s, 227, 19));
        assert(skip_indents_spec(s, 227, 19) == skip_indents_spec(s, 228, 20));
        assert(skip_indents_spec(s, 228, 20) == (20nat, 228int));
    }
    assert(scan_half(s, 207, 204, false) == scan_half(s, 228, 228, false));
    assert(scan_half(s, 228, 228, false) == scan_half(s, 230, 229, false));
    assert(scan_half(s, 230, 229, false) == scan_half(s, 231, 229, false));
    assert(scan_half(s, 231, 229, false) == scan_half(s, 232, 229, false));
}

proof fn lemma_conditional_bracket_1_8()
    ensures
        scan_half("\n                    const {inner:local} = ({value:out}) => {{\n                        {inner}\n                    }}\n\n                    if ({condition:local}) {{\n                        {if_true:local}();\n                    }} else {{\n                        {if_false:local}();\n                    }}\n                "@, 232, 229, false) == scan_half("\n                    const {inner:local} = ({value:out}) => {{\n                        {inner}\n                    }}\n\n                    if ({condition:local}) {{\n                        {if_true:local}();\n                    }} else {{\n                        {if_false:local}();\n                    }}\n                "@, 270, 264, true),
{
    reveal_strlit("\n                    const {inner:local} = ({value:out}) => {{\n                        {inner}\n                    }}\n\n                    if ({condition:local}) {{\n                        {if_true:local}();\n                    }} else {{\n                        {if_false:local}();\n                    }}\n                ");
    let s = "\n                    const {inner:local} = ({value:out}) => {{\n                        {inner}\n                    }}\n\n                    if ({condition:local}) {{\n                        {if_true:local}();\n                    }} else {{\n                        {if_false:local}();\n                    }}\n                "@;
    assert(scan_half(s, 232, 229, false) == scan_half(s, 233, 229, false));
    assert(scan_half(s, 233, 229, false) == scan_half(s, 234, 229, false));
    assert(scan_half(s, 234, 229, false) == scan_half(s, 235, 229, false));
    assert(scan_half(s, 235, 229, false) == scan_half(s, 236, 229, false));
    assert(scan_half(s, 236, 229, false) == scan_half(s, 238, 237, false));
    assert(skip_indents_spec(s, 239, 0) == (24nat, 263int)) by {
        assert(skip_indents_spec(s, 239, 0) == skip_indents_spec(s, 240, 1));
        assert(skip_indents_spec(s, 240, 1) == skip_indents_spec(s, 241, 2));
        assert(skip_indents_spec(s, 241, 2) == skip_indents_spec(s, 242, 3));
        assert(skip_indents_spec(s, 242, 3) == skip_indents_spec(s, 243, 4));
        assert(skip_indents_spec(s, 243, 4) == skip_indents_spec(s, 244, 5));
        assert(skip_indents_spec(s, 244, 5) == skip_indents_spec(s, 245, 6));
        assert(skip_indents_spec(s, 245, 6) == skip_indents_spec(s, 246, 7));
        assert(skip_indents_spec(s, 246, 7) == skip_indents_spec(s, 247, 8));
        assert(skip_indents_spec(s, 247, 8) == skip_indents_spec(s, 248, 9));
        assert(skip_indents_spec(s, 248, 9) == skip_indents_spec(s, 249, 10));
        assert(skip_indents_spec(s, 249, 10) == skip_indents_spec(s, 250, 11));
        assert(skip_indents_spec(s, 250, 11) == skip_indents_spec(s, 251, 12));
        assert(skip_indents_spec(s, 251, 12) == skip_indents_spec(s, 252, 13));
        assert(skip_indents_spec(s, 252, 13) == skip_indents_spec(s, 253, 14));
        assert(skip_indents_spec(s, 253, 14) == skip_indents_spec(s, 254, 15));
        assert(skip_indents_spec(s, 254, 15) == skip_indents_spec(s, 255, 16));
        assert(skip_indents_spec(s, 255, 16) == skip_indents_spec(s, 256, 17));
        assert(skip_indents_spec(s, 256, 17) == skip_indents_spec(s, 257, 18));
        assert(skip_indents_spec(s, 257, 18) == skip_indents_spec(s, 258, 19));
        assert(skip_indents_spec(s, 258, 19) == skip_indents_spec(s, 259, 20));
        assert(skip_indents_spec(s, 259, 20) == skip_indents_spec(s, 260, 21));
        assert(skip_indents_spec(s, 260, 21) == skip_indents_spec(s, 261, 22));
        assert(skip_indents_spec(s, 261, 22) == skip_indents_spec(s, 262, 23));
        assert(skip_indents_spec(s, 262, 23) == skip_indents_spec(s, 263, 24));
        assert(skip_indents_spec(s, 263, 24) == (24nat, 263int));
    }
    assert(scan_half(s, 238, 237, false) == scan_half(s, 263, 263, false));
    assert(scan_half(s, 263, 263, false) == scan_half(s, 265, 264, true));
    assert(scan_half(s, 265, 264, true) == scan_half(s, 266, 264, true));
    assert(scan_half(s, 266, 264, true) == scan_half(s, 267, 264, true));
    assert(scan_half(s, 267, 264, true) == scan_half(s, 268, 264, true));
    assert(scan_half(s, 268, 264, true) == scan_half(s, 269, 264, true));
    assert(scan_half(s, 269, 264, true) == scan_half(s, 270, 264, true));
}

proof fn lemma_conditional_bracket_1_9()
    ensures
        scan_half("\n                    const {inner:local} = ({value:out}) => {{\n                        {inner}\n                    }}\n\n                    if ({condition:local}) {{\n                        {if_true:local}();\n                    }} else {{\n                        {if_false:local}();\n                    }}\n                "@, 270, 264, true) == scan_half("\n                    const {inner:local} = ({value:out}) => {{\n                        {inner}\n                    }}\n\n                    if ({condition:local}) {{\n                        {if_true:local}();\n                    }} else {{\n                        {if_false:local}();\n                    }}\n                "@, 282, 279, false),
{
    reveal_strlit("\n                    const {inner:local} = ({value:out}) => {{\n                        {inner}\n                    }}\n\n                    if ({condition:local}) {{\n                        {if_true:local}();\n                    }} else {{\n                        {if_false:local}();\n                    }}\n                ");
    let s = "\n                    const {inner:local} = ({value:out}) => {{\n                        {inner}\n                    }}\n\n                    if ({condition:local}) {{\n                        {if_true:local}();\n                    }} else {{\n                        {if_false:local}();\n                    }}\n                "@;
    assert(scan_half(s, 270, 264, true) == scan_half(s, 271, 264, true));
    assert(scan_half(s, 271, 264, true) == scan_half(s, 272, 264, true));
    assert(scan_half(s, 272, 264, true) == scan_half(s, 273, 264, true));
    assert(scan_half(s, 273, 264, true) == scan_half(s, 274, 264, true));
    assert(scan_half(s, 274, 264, true) == scan_half(s, 275, 264, true));
    assert(scan_half(s, 275, 264, true) == scan_half(s, 276, 264, true));
    assert(scan_half(s, 276, 264, true) == scan_half(s, 277, 264, true));
    assert(scan_half(s, 277, 264, true) == scan_half(s, 278, 264, true));
    assert(s.subrange(264, 278) =~= seq!['i', 'f', '_', 'f', 'a', 'l', 's', 'e', ':', 'l', 'o', 'c', 'a', 'l']);
    assert(is_word(seq!['i', 'f', '_', 'f', 'a', 'l', 's', 'e'])) by {
        let w = seq!['i', 'f', '_', 'f', 'a', 'l', 's', 'e'];
        assert forall|k: int| 0 <= k < 8 implies !is_whitespace_spec(#[trigger] w[k]) && w[k] != ':' by {
            assert(k == 0 || k == 1 || k == 2 || k == 3 || k == 4 || k == 5 || k == 6 || k == 7);
        }
    }
    assert(is_word(seq!['l', 'o', 'c', 'a', 'l'])) by {
        let w = seq!['l', 'o', 'c', 'a', 'l'];
        assert forall|k: int| 0 <= k < 5 implies !is_whitespace_spec(#[trigger] w[k]) && w[k] != ':' by {
            assert(k == 0 || k == 1 || k == 2 || k == 3 || k == 4);
        }
    }
    lemma_classify_variable(seq!['i', 'f', '_', 'f', 'a', 'l', 's', 'e'], seq!['l', 'o', 'c', 'a', 'l']);
    assert(seq!['i', 'f', '_', 'f', 'a', 'l', 's', 'e', ':', 'l', 'o', 'c', 'a', 'l'] =~= seq!['i', 'f', '_', 'f', 'a', 'l', 's', 'e'] + seq![':'] + seq!['l', 'o', 'c', 'a', 'l']);
    assert(scan_half(s, 278, 264, true) == scan_half(s, 279, 279, false));
    assert(scan_half(s, 279, 279, false) == scan_half(s, 280, 279, false));
    assert(scan_half(s, 280, 279, false) == scan_half(s, 281, 279, false));
    assert(scan_half(s, 281, 279, false) == scan_half(s, 282, 279, false));
}

proof fn lemma_conditional_bracket_1_10()
    ensures
        scan_half("\n                    const {inner:local} = ({value:out}) => {{\n                        {inner}\n                    }}\n\n                    if ({condition:local}) {{\n                        {if_true:local}();\n                    }} else {{\n                        {if_false:local}();\n                    }}\n                "@, 282, 279, false) == Some(322int),
{
    reveal_strlit("\n                    const {inner:local} = ({value:out}) => {{\n                        {inner}\n                    }}\n\n                    if ({condition:local}) {{\n                        {if_true:local}();\n                    }} else {{\n                        {if_false:local}();\n                    }}\n                ");
    let s = "\n                    const {inner:local} = ({value:out}) => {{\n                        {inner}\n                    }}\n\n                    if ({condition:local}) {{\n                        {if_true:local}();\n                    }} else {{\n                        {if_false:local}();\n                    }}\n                "@;
    assert(skip_indents_spec(s, 283, 0) == (20nat, 303int)) by {
        assert(skip_indents_spec(s, 283, 0) == skip_indents_spec(s, 284, 1));
        assert(skip_indents_spec(s, 284, 1) == skip_indents_spec(s, 285, 2));
        assert(skip_indents_spec(s, 285, 2) == skip_indents_spec(s, 286, 3));
        assert(skip_indents_spec(s, 286, 3) == skip_indents_spec(s, 287, 4));
        assert(skip_indents_spec(s, 287, 4) == skip_indents_spec(s, 288, 5));
        assert(skip_indents_spec(s, 288, 5) == skip_indents_spec(s, 289, 6));
        assert(skip_indents_spec(s, 289, 6) == skip_indents_spec(s, 290, 7));
        assert(skip_indents_spec(s, 290, 7) == skip_indents_spec(s, 291, 8));
        assert(skip_indents_spec(s, 291, 8) == skip_indents_spec(s, 292, 9));
        assert(skip_indents_spec(s, 292, 9) == skip_indents_spec(s, 293, 10));
        assert(skip_indents_spec(s, 293, 10) == skip_indents_spec(s, 294, 11));
        assert(skip_indents_spec(s, 294, 11) == skip_indents_spec(s, 295, 12));
        assert(skip_indents_spec(s, 295, 12) == skip_indents_spec(s, 296, 13));
        assert(skip_indents_spec(s, 296, 13) == skip_indents_spec(s, 297, 14));
        assert(skip_indents_spec(s, 297, 14) == skip_indents_spec(s, 298, 15));
        assert(skip_indents_spec(s, 298, 15) == skip_indents_spec(s, 299, 16));
        assert(skip_indents_spec(s, 299, 16) == skip_indents_spec(s, 300, 17));
        assert(skip_indents_spec(s, 300, 17) == skip_indents_spec(s, 301, 18));
        assert(skip_indents_spec(s, 301, 18) == skip_indents_spec(s, 302, 19));
        assert(skip_indents_spec(s, 302, 19) == skip_indents_spec(s, 303, 20));
        assert(skip_indents_spec(s, 303, 20) == (20nat, 303int));
    }
    assert(scan_half(s, 282, 279, false) == scan_half(s, 303, 303, false));
    assert(scan_half(s, 303, 303, false) == scan_half(s, 305, 304, false));
    assert(skip_indents_spec(s, 306, 0) == (16nat, 322int)) by {
        assert(skip_indents_spec(s, 306, 0) == skip_indents_spec(s, 307, 1));
        assert(skip_indents_spec(s, 307, 1) == skip_indents_spec(s, 308, 2));
        assert(skip_indents_spec(s, 308, 2) == skip_indents_spec(s, 309, 3));
        assert(skip_indents_spec(s, 309, 3) == skip_indents_spec(s, 310, 4));
        assert(skip_indents_spec(s, 310, 4) == skip_indents_spec(s, 311, 5));
        assert(skip_indents_spec(s, 311, 5) == skip_indents_spec(s, 312, 6));
        assert(skip_indents_spec(s, 312, 6) == skip_indents_spec(s, 313, 7));
        assert(skip_indents_spec(s, 313, 7) == skip_indents_spec(s, 314, 8));
        assert(skip_indents_spec(s, 314, 8) == skip_indents_spec(s, 315, 9));
        assert(skip_indents_spec(s, 315, 9) == skip_indents_spec(s, 316, 10));
        assert(skip_indents_spec(s, 316, 10) == skip_indents_spec(s, 317, 11));
        assert(skip_indents_spec(s, 317, 11) == skip_indents_spec(s, 318, 12));
        assert(skip_indents_spec(s, 318, 12) == skip_indents_spec(s, 319, 13));
        assert(skip_indents_spec(s, 319, 13) == skip_indents_spec(s, 320, 14));
        assert(skip_indents_spec(s, 320, 14) == skip_indents_spec(s, 321, 15));
        assert(skip_indents_spec(s, 321, 15) == skip_indents_spec(s, 322, 16));
        assert(skip_indents_spec(s, 322, 16) == (16nat, 322int));
    }
    assert(scan_half(s, 305, 304, false) == scan_half(s, 322, 322, false));
    assert(scan_half(s, 322, 322, false) == Some(322int));
}

/// The `conditional` builtin builds from its templates.
proof fn lemma_conditional_builds()
    ensures
        build_builtin(builtin_sources_spec()[2]) is Ok,
{
    let b = builtin_sources_spec()[2];
    lemma_conditional_template();
    lemma_template_parses(b.template);
    lemma_conditional_bracket_0();
    lemma_template_parses(b.brackets[0].fragment);
    assert(build_bracket(b.brackets[0]) is Ok);
    lemma_conditional_handler_1();
    lemma_half_template_parses(handler_text(b.brackets[1]));
    lemma_conditional_bracket_1();
    lemma_template_parses(b.brackets[1].fragment);
    assert(build_bracket(b.brackets[1]) is Ok);
    lemma_build_brackets_ok(b.brackets);
}

/// The template of the `range` builtin parses.
proof fn lemma_range_template()
    ensures
        template_parses("\n            for (let {i:out}=0;{i:out}<{max:in};{i:out}++) {{\n                {inner}\n            }}\n            "@),
{
    reveal_strlit("\n            for (let {i:out}=0;{i:out}<{max:in};{i:out}++) {{\n                {inner}\n            }}\n            ");
    let s = "\n            for (let {i:out}=0;{i:out}<{max:in};{i:out}++) {{\n                {inner}\n            }}\n            "@;
    assert(s.len() == 114);
    assert(skip_indents_spec(s, 0, 0) == (12nat, 13int)) by {
        assert(skip_indents_spec(s, 0, 0) == skip_indents_spec(s, 1, 0));
        assert(skip_indents_spec(s, 1, 0) == skip_indents_spec(s, 2, 1));
        assert(skip_indents_spec(s, 2, 1) == skip_indents_spec(s, 3, 2));
        assert(skip_indents_spec(s, 3, 2) == skip_indents_spec(s, 4, 3));
        assert(skip_indents_spec(s, 4, 3) == skip_indents_spec(s, 5, 4));
        assert(skip_indents_spec(s, 5, 4) == skip_indents_spec(s, 6, 5));
        assert(skip_indents_spec(s, 6, 5) == skip_indents_spec(s, 7, 6));
        assert(skip_indents_spec(s, 7, 6) == skip_indents_spec(s, 8, 7));
        assert(skip_indents_spec(s, 8, 7) == skip_indents_spec(s, 9, 8));
        assert(skip_indents_spec(s, 9, 8) == skip_indents_spec(s, 10, 9));
        assert(skip_indents_spec(s, 10, 9) == skip_indents_spec(s, 11, 10));
        assert(skip_indents_spec(s, 11, 10) == skip_indents_spec(s, 12, 11));
        assert(skip_indents_spec(s, 12, 11) == skip_indents_spec(s, 13, 12));
        assert(skip_indents_spec(s, 13, 12) == (12nat, 13int));
    }
    lemma_range_template_0();
    lemma_range_template_1();
    lemma_range_template_2();
    lemma_range_template_3();
    lemma_range_template_4();
    lemma_range_template_5();
}

proof fn lemma_range_template_0()
    ensures
        scan_half("\n            for (let {i:out}=0;{i:out}<{max:in};{i:out}++) {{\n                {inner}\n            }}\n            "@, 13, 13, false) == scan_half("\n            for (let {i:out}=0;{i:out}<{max:in};{i:out}++) {{\n                {inner}\n            }}\n            "@, 26, 23, true),
{
    reveal_strlit("\n            for (let {i:out}=0;{i:out}<{max:in};{i:out}++) {{\n                {inner}\n            }}\n            ");
    let s = "\n            for (let {i:out}=0;{i:out}<{max:in};{i:out}++) {{\n                {inner}\n            }}\n            "@;
    assert(scan_half(s, 13, 13, false) == scan_half(s, 14, 13, false));
    assert(scan_half(s, 14, 13, false) == scan_half(s, 15, 13, false));
    assert(scan_half(s, 15, 13, false) == scan_half(s, 16, 13, false));
    assert(scan_half(s, 16, 13, false) == scan_half(s, 17, 13, false));
    assert(scan_half(s, 17, 13, false) == scan_half(s, 18, 13, false));
    assert(scan_half(s, 18, 13, false) == scan_half(s, 19, 13, false));
    assert(scan_half(s, 19, 13, false) == scan_half(s, 20, 13, false));
    assert(scan_half(s, 20, 13, false) == scan_half(s, 21, 13, false));
    assert(scan_half(s, 21, 13, false) == scan_half(s, 22, 13, false));
    assert(scan_half(s, 22, 13, false) == scan_half(s, 24, 23, true));
    assert(scan_half(s, 24, 23, true) == scan_half(s, 25, 23, true));
    assert(scan_half(s, 25, 23, true) == scan_half(s, 26, 23, true));
}

proof fn lemma_range_template_1()
    ensures
        scan_half("\n            for (let {i:out}=0;{i:out}<{max:in};{i:out}++) {{\n                {inner}\n            }}\n            "@, 26, 23, true) == scan_half("\n            for (let {i:out}=0;{i:out}<{max:in};{i:out}++) {{\n                {inner}\n            }}\n            "@, 39, 39, false),
{
    reveal_strlit("\n            for (let {i:out}=0;{i:out}<{max:in};{i:out}++) {{\n                {inner}\n            }}\n            ");
    let s = "\n            for (let {i:out}=0;{i:out}<{max:in};{i:out}++) {{\n                {inner}\n            }}\n            "@;
    assert(scan_half(s, 26, 23, true) == scan_half(s, 27, 23, true));
    assert(scan_half(s, 27, 23, true) == scan_half(s, 28, 23, true));
    assert(s.subrange(23, 28) =~= seq!['i', ':', 'o', 'u', 't']);
    assert(is_word(seq!['i'])) by {
        let w = seq!['i'];
        assert forall|k: int| 0 <= k < 1 implies !is_whitespace_spec(#[trigger] w[k]) && w[k] != ':' by {
            assert(k == 0);
        }
    }
    assert(is_word(seq!['o', 'u', 't'])) by {
        let w = seq!['o', 'u', 't'];
        assert forall|k: int| 0 <= k < 3 implies !is_whitespace_spec(#[trigger] w[k]) && w[k] != ':' by {
            assert(k == 0 || k == 1 || k == 2);
        }
    }
    lemma_classify_variable(seq!['i'], seq!['o', 'u', 't']);
    assert(seq!['i', ':', 'o', 'u', 't'] =~= seq!['i'] + seq![':'] + seq!['o', 'u', 't']);
    assert(scan_half(s, 28, 23, true) == scan_half(s, 29, 29, false));
    assert(scan_half(s, 29, 29, false) == scan_half(s, 30, 29, false));
    assert(scan_half(s, 30, 29, false) == scan_half(s, 31, 29, false));
    assert(scan_half(s, 31, 29, false) == scan_half(s, 32, 29, false));
    assert(scan_half(s, 32, 29, false) == scan_half(s, 34, 33, true));
    assert(scan_half(s, 34, 33, true) == scan_half(s, 35, 33, true));
    assert(scan_half(s, 35, 33, true) == scan_half(s, 36, 33, true));
    assert(scan_half(s, 36, 33, true) == scan_half(s, 37, 33, true));
    assert(scan_half(s, 37, 33, true) == scan_half(s, 38, 33, true));
    assert(s.subrange(33, 38) =~= seq!['i', ':', 'o', 'u', 't']);
    lemma_classify_variable(seq!['i'], seq!['o', 'u', 't']);
    assert(seq!['i', ':', 'o', 'u', 't'] =~= seq!['i'] + seq![':'] + seq!['o', 'u', 't']);
    assert(scan_half(s, 38, 33, true) == scan_half(s, 39, 39, false));
}

proof fn lemma_range_template_2()
    ensures
        scan_half("\n            for (let {i:out}=0;{i:out}<{max:in};{i:out}++) {{\n                {inner}\n            }}\n            "@, 39, 39, false) == scan_half("\n            for (let {i:out}=0;{i:out}<{max:in};{i:out}++) {{\n                {inner}\n            }}\n            "@, 53, 50, true),
{
    reveal_strlit("\n            for (let {i:out}=0;{i:out}<{max:in};{i:out}++) {{\n                {inner}\n            }}\n            ");
    let s = "\n            for (let {i:out}=0;{i:out}<{max:in};{i:out}++) {{\n                {inner}\n            }}\n            "@;
    assert(scan_half(s, 39, 39, false) == scan_half(s, 40, 39, false));
    assert(scan_half(s, 40, 39, false) == scan_half(s, 42, 41, true));
    assert(scan_half(s, 42, 41, true) == scan_half(s, 43, 41, true));
    assert(scan_half(s, 43, 41, true) == scan_half(s, 44, 41, true));
    assert(scan_half(s, 44, 41, true) == scan_half(s, 45, 41, true));
    assert(scan_half(s, 45, 41, true) == scan_half(s, 46, 41, true));
    assert(scan_half(s, 46, 41, true) == scan_half(s, 47, 41, true));
    assert(s.subrange(41, 47) =~= seq!['m', 'a', 'x', ':', 'i', 'n']);
    assert(is_word(seq!['m', 'a', 'x'])) by {
        let w = seq!['m', 'a', 'x'];
        assert forall|k: int| 0 <= k < 3 implies !is_whitespace_spec(#[trigger] w[k]) && w[k] != ':' by {
            assert(k == 0 || k == 1 || k == 2);
        }
    }
    assert(is_word(seq!['i', 'n'])) by {
        let w = seq!['i', 'n'];
        assert forall|k: int| 0 <= k < 2 implies !is_whitespace_spec(#[trigger] w[k]) && w[k] != ':' by {
            assert(k == 0 || k == 1);
        }
    }
    lemma_classify_variable(seq!['m', 'a', 'x'], seq!['i', 'n']);
    assert(seq!['m', 'a', 'x', ':', 'i', 'n'] =~= seq!['m', 'a', 'x'] + seq![':'] + seq!['i', 'n']);
    assert(scan_half(s, 47, 41, true) == scan_half(s, 48, 48, false));
    assert(scan_half(s, 48, 48, false) == scan_half(s, 49, 48, false));
    assert(scan_half(s, 49, 48, false) == scan_half(s, 51, 50, true));
    assert(scan_half(s, 51, 50, true) == scan_half(s, 52, 50, true));
    assert(scan_half(s, 52, 50, true) == scan_half(s, 53, 50, true));
}

proof fn lemma_range_template_3()
    ensures
        scan_half("\n            for (let {i:out}=0;{i:out}<{max:in};{i:out}++) {{\n                {inner}\n            }}\n            "@, 53, 50, true) == scan_half("\n            for (let {i:out}=0;{i:out}<{max:in};{i:out}++) {{\n                {inner}\n            }}\n            "@, 83, 80, true),
{
    reveal_strlit("\n            for (let {i:out}=0;{i:out}<{max:in};{i:out}++) {{\n                {inner}\n            }}\n            ");
    let s = "\n            for (let {i:out}=0;{i:out}<{max:in};{i:out}++) {{\n                {inner}\n            }}\n            "@;
    assert(scan_half(s, 53, 50, true) == scan_half(s, 54, 50, true));
    assert(scan_half(s, 54, 50, true) == scan_half(s, 55, 50, true));
    assert(s.subrange(50, 55) =~= seq!['i', ':', 'o', 'u', 't']);
    assert(is_word(seq!['i'])) by {
        let w = seq!['i'];
        assert forall|k: int| 0 <= k < 1 implies !is_whitespace_spec(#[trigger] w[k]) && w[k] != ':' by {
            assert(k == 0);
        }
    }
    assert(is_word(seq!['o', 'u', 't'])) by {
        let w = seq!['o', 'u', 't'];
        assert forall|k: int| 0 <= k < 3 implies !is_whitespace_spec(#[trigger] w[k]) && w[k] != ':' by {
            assert(k == 0 || k == 1 || k == 2);
        }
    }
    lemma_classify_variable(seq!['i'], seq!['o', 'u', 't']);
    assert(seq!['i', ':', 'o', 'u', 't'] =~= seq!['i'] + seq![':'] + seq!['o', 'u', 't']);
    assert(scan_half(s, 55, 50, true) == scan_half(s, 56, 56, false));
    assert(scan_half(s, 56, 56, false) == scan_half(s, 57, 56, false));
    assert(scan_half(s, 57, 56, false) == scan_half(s, 58, 56, false));
    assert(scan_half(s, 58, 56, false) == scan_half(s, 59, 56, false));
    assert(scan_half(s, 59, 56, false) == scan_half(s, 60, 56, false));
    assert(scan_half(s, 60, 56, false) == scan_half(s, 62, 61, false));
    assert(skip_indents_spec(s, 63, 0) == (16nat, 79int)) by {
        assert(skip_indents_spec(s, 63, 0) == skip_indents_spec(s, 64, 1));
        assert(skip_indents_spec(s, 64, 1) == skip_indents_spec(s, 65, 2));
        assert(skip_indents_spec(s, 65, 2) == skip_indents_spec(s, 66, 3));
        assert(skip_indents_spec(s, 66, 3) == skip_indents_spec(s, 67, 4));
        assert(skip_indents_spec(s, 67, 4) == skip_indents_spec(s, 68, 5));
        assert(skip_indents_spec(s, 68, 5) == skip_indents_spec(s, 69, 6));
        assert(skip_indents_spec(s, 69, 6) == skip_indents_spec(s, 70, 7));
        assert(skip_indents_spec(s, 70, 7) == skip_indents_spec(s, 71, 8));
        assert(skip_indents_spec(s, 71, 8) == skip_indents_spec(s, 72, 9));
        assert(skip_indents_spec(s, 72, 9) == skip_indents_spec(s, 73, 10));
        assert(skip_indents_spec(s, 73, 10) == skip_indents_spec(s, 74, 11));
        assert(skip_indents_spec(s, 74, 11) == skip_indents_spec(s, 75, 12));
        assert(skip_indents_spec(s, 75, 12) == skip_indents_spec(s, 76, 13));
        assert(skip_indents_spec(s, 76, 13) == skip_indents_spec(s, 77, 14));
        assert(skip_indents_spec(s, 77, 14) == skip_indents_spec(s, 78, 15));
        assert(skip_indents_spec(s, 78, 15) == skip_indents_spec(s, 79, 16));
        assert(skip_indents_spec(s, 79, 16) == (16nat, 79int));
    }
    assert(scan_half(s, 62, 61, false) == scan_half(s, 79, 79, false));
    assert(scan_half(s, 79, 79, false) == scan_half(s, 81, 80, true));
    assert(scan_half(s, 81, 80, true) == scan_half(s, 82, 80, true));
    assert(scan_half(s, 82, 80, true) == scan_half(s, 83, 80, true));
}

proof fn lemma_range_template_4()
    ensures
        scan_half("\n            for (let {i:out}=0;{i:out}<{max:in};{i:out}++) {{\n                {inner}\n            }}\n            "@, 83, 80, true) == Some(86int),
{
    reveal_strlit("\n            for (let {i:out}=0;{i:out}<{max:in};{i:out}++) {{\n                {inner}\n            }}\n            ");
    let s = "\n            for (let {i:out}=0;{i:out}<{max:in};{i:out}++) {{\n                {inner}\n            }}\n            "@;
    assert(scan_half(s, 83, 80, true) == scan_half(s, 84, 80, true));
    assert(scan_half(s, 84, 80, true) == scan_half(s, 85, 80, true));
    assert(s.subrange(80, 85) =~= seq!['i', 'n', 'n', 'e', 'r']);
    lemma_classify_inner();
    assert(seq!['i', 'n', 'n', 'e', 'r'] =~= inner_word());
    assert(scan_half(s, 85, 80, true) == Some(86int));
}

proof fn lemma_range_template_5()
    ensures
        scan_half("\n            for (let {i:out}=0;{i:out}<{max:in};{i:out}++) {{\n                {inner}\n            }}\n            "@, 86, 86, false) == Some(114int),
{
    reveal_strlit("\n            for (let {i:out}=0;{i:out}<{max:in};{i:out}++) {{\n                {inner}\n            }}\n            ");
    let s = "\n            for (let {i:out}=0;{i:out}<{max:in};{i:out}++) {{\n                {inner}\n            }}\n            "@;
    assert(skip_indents_spec(s, 87, 0) == (12nat, 99int)) by {
        assert(skip_indents_spec(s, 87, 0) == skip_indents_spec(s, 88, 1));
        assert(skip_indents_spec(s, 88, 1) == skip_indents_spec(s, 89, 2));
        assert(skip_indents_spec(s, 89, 2) == skip_indents_spec(s, 90, 3));
        assert(skip_indents_spec(s, 90, 3) == skip_indents_spec(s, 91, 4));
        assert(skip_indents_spec(s, 91, 4) == skip_indents_spec(s, 92, 5));
        assert(skip_indents_spec(s, 92, 5) == skip_indents_spec(s, 93, 6));
        assert(skip_indents_spec(s, 93, 6) == skip_indents_spec(s, 94, 7));
        assert(skip_indents_spec(s, 94, 7) == skip_indents_spec(s, 95, 8));
        assert(skip_indents_spec(s, 95, 8) == skip_indents_spec(s, 96, 9));
        assert(skip_indents_spec(s, 96, 9) == skip_indents_spec(s, 97, 10));
        assert(skip_indents_spec(s, 97, 10) == skip_indents_spec(s, 98, 11));
        assert(skip_indents_spec(s, 98, 11) == skip_indents_spec(s, 99, 12));
        assert(skip_indents_spec(s, 99, 12) == (12nat, 99int));
    }
    assert(scan_half(s, 86, 86, false) == scan_half(s, 99, 99, false));
    assert(scan_half(s, 99, 99, false) == scan_half(s, 101, 100, false));
    assert(skip_indents_spec(s, 102, 0) == (12nat, 114int)) by {
        assert(skip_indents_spec(s, 102, 0) == skip_indents_spec(s, 103, 1));
        assert(skip_indents_spec(s, 103, 1) == skip_indents_spec(s, 104, 2));
        assert(skip_indents_spec(s, 104, 2) == skip_indents_spec(s, 105, 3));
        assert(skip_indents_spec(s, 105, 3) == skip_indents_spec(s, 106, 4));
        assert(skip_indents_spec(s, 106, 4) == skip_indents_spec(s, 107, 5));
        assert(skip_indents_spec(s, 107, 5) == skip_indents_spec(s, 108, 6));
        assert(skip_indents_spec(s, 108, 6) == skip_indents_spec(s, 109, 7));
        assert(skip_indents_spec(s, 109, 7) == skip_indents_spec(s, 110, 8));
        assert(skip_indents_spec(s, 110, 8) == skip_indents_spec(s, 111, 9));
        assert(skip_indents_spec(s, 111, 9) == skip_indents_spec(s, 112, 10));
        assert(skip_indents_spec(s, 112, 10) == skip_indents_spec(s, 113, 11));
        assert(skip_indents_spec(s, 113, 11) == skip_indents_spec(s, 114, 12));
        assert(skip_indents_spec(s, 114, 12) == (12nat, 114int));
    }
    assert(scan_half(s, 101, 100, false) == scan_half(s, 114, 114, false));
    assert(scan_half(s, 114, 114, false) == Some(114int));
}

/// The `range` builtin builds from its templates.
proof fn lemma_range_builds()
    ensures
        build_builtin(builtin_sources_spec()[3]) is Ok,
{
    let b = builtin_sources_spec()[3];
    lemma_range_template();
    lemma_template_parses(b.template);
    assert(b.brackets.len() == 0);
}

/// The template of the `add` builtin parses.
proof fn lemma_add_template()
    ensures
        template_parses("\n            const {out:out} = add({op1:in}, {op2:in});\n            { inner }\n        "@),
{
    reveal_strlit("\n            const {out:out} = add({op1:in}, {op2:in});\n            { inner }\n        ");
    let s = "\n            const {out:out} = add({op1:in}, {op2:in});\n            { inner }\n        "@;
    assert(s.len() == 86);
    assert(skip_indents_spec(s, 0, 0) == (12nat, 13int)) by {
        assert(skip_indents_spec(s, 0, 0) == skip_indents_spec(s, 1, 0));
        assert(skip_indents_spec(s, 1, 0) == skip_indents_spec(s, 2, 1));
        assert(skip_indents_spec(s, 2, 1) == skip_indents_spec(s, 3, 2));
        assert(skip_indents_spec(s, 3, 2) == skip_indents_spec(s, 4, 3));
        assert(skip_indents_spec(s, 4, 3) == skip_indents_spec(s, 5, 4));
        assert(skip_indents_spec(s, 5, 4) == skip_indents_spec(s, 6, 5));
        assert(skip_indents_spec(s, 6, 5) == skip_indents_spec(s, 7, 6));
        assert(skip_indents_spec(s, 7, 6) == skip_indents_spec(s, 8, 7));
        assert(skip_indents_spec(s, 8, 7) == skip_indents_spec(s, 9, 8));
        assert(skip_indents_spec(s, 9, 8) == skip_indents_spec(s, 10, 9));
        assert(skip_indents_spec(s, 10, 9) == skip_indents_spec(s, 11, 10));
        assert(skip_indents_spec(s, 11, 10) == skip_indents_spec(s, 12, 11));
        assert(skip_indents_spec(s, 12, 11) == skip_indents_spec(s, 13, 12));
        assert(skip_indents_spec(s, 13, 12) == (12nat, 13int));
    }
    lemma_add_template_0();
    lemma_add_template_1();
    lemma_add_template_2();
    lemma_add_template_3();
    lemma_add_template_4();
}

proof fn lemma_add_template_0()
    ensures
        scan_half("\n            const {out:out} = add({op1:in}, {op2:in});\n            { inner }\n        "@, 13, 13, false) == scan_half("\n            const {out:out} = add({op1:in}, {op2:in});\n            { inner }\n        "@, 26, 20, true),
{
    reveal_strlit("\n            const {out:out} = add({op1:in}, {op2:in});\n            { inner }\n        ");
    let s = "\n            const {out:out} = add({op1:in}, {op2:in});\n            { inner }\n        "@;
    assert(scan_half(s, 13, 13, false) == scan_half(s, 14, 13, false));
    assert(scan_half(s, 14, 13, false) == scan_half(s, 15, 13, false));
    assert(scan_half(s, 15, 13, false) == scan_half(s, 16, 13, false));
    assert(scan_half(s, 16, 13, false) == scan_half(s, 17, 13, false));
    assert(scan_half(s, 17, 13, false) == scan_half(s, 18, 13, false));
    assert(scan_half(s, 18, 13, false) == scan_half(s, 19, 13, false));
    assert(scan_half(s, 19, 13, false) == scan_half(s, 21, 20, true));
    assert(scan_half(s, 21, 20, true) == scan_half(s, 22, 20, true));
    assert(scan_half(s, 22, 20, true) == scan_half(s, 23, 20, true));
    assert(scan_half(s, 23, 20, true) == scan_half(s, 24, 20, true));
    assert(scan_half(s, 24, 20, true) == scan_half(s, 25, 20, true));
    assert(scan_half(s, 25, 20, true) == scan_half(s, 26, 20, true));
}

proof fn lemma_add_template_1()
    ensures
        scan_half("\n            const {out:out} = add({op1:in}, {op2:in});\n            { inner }\n        "@, 26, 20, true) == scan_half("\n            const {out:out} = add({op1:in}, {op2:in});\n            { inner }\n        "@, 39, 36, true),
{
    reveal_strlit("\n            const {out:out} = add({op1:in}, {op2:in});\n            { inner }\n        ");
    let s = "\n            const {out:out} = add({op1:in}, {op2:in});\n            { inner }\n        "@;
    assert(scan_half(s, 26, 20, true) == scan_half(s, 27, 20, true));
    assert(s.subrange(20, 27) =~= seq!['o', 'u', 't', ':', 'o', 'u', 't']);
    assert(is_word(seq!['o', 'u', 't'])) by {
        let w = seq!['o', 'u', 't'];
        assert forall|k: int| 0 <= k < 3 implies !is_whitespace_spec(#[trigger] w[k]) && w[k] != ':' by {
            assert(k == 0 || k == 1 || k == 2);
        }
    }
    lemma_classify_variable(seq!['o', 'u', 't'], seq!['o', 'u', 't']);
    assert(seq!['o', 'u', 't', ':', 'o', 'u', 't'] =~= seq!['o', 'u', 't'] + seq![':'] + seq!['o', 'u', 't']);
    assert(scan_half(s, 27, 20, true) == scan_half(s, 28, 28, false));
    assert(scan_half(s, 28, 28, false) == scan_half(s, 29, 28, false));
    assert(scan_half(s, 29, 28, false) == scan_half(s, 30, 28, false));
    assert(scan_half(s, 30, 28, false) == scan_half(s, 31, 28, false));
    assert(scan_half(s, 31, 28, false) == scan_half(s, 32, 28, false));
    assert(scan_half(s, 32, 28, false) == scan_half(s, 33, 28, false));
    assert(scan_half(s, 33, 28, false) == scan_half(s, 34, 28, false));
    assert(scan_half(s, 34, 28, false) == scan_half(s, 35, 28, false));
    assert(scan_half(s, 35, 28, false) == scan_half(s, 37, 36, true));
    assert(scan_half(s, 37, 36, true) == scan_half(s, 38, 36, true));
    assert(scan_half(s, 38, 36, true) == scan_half(s, 39, 36, true));
}

proof fn lemma_add_template_2()
    ensures
        scan_half("\n            const {out:out} = add({op1:in}, {op2:in});\n            { inner }\n        "@, 39, 36, true) == scan_half("\n            const {out:out} = add({op1:in}, {op2:in});\n            { inner }\n        "@, 52, 46, true),
{
    reveal_strlit("\n            const {out:out} = add({op1:in}, {op2:in});\n            { inner }\n        ");
    let s = "\n            const {out:out} = add({op1:in}, {op2:in});\n            { inner }\n        "@;
    assert(scan_half(s, 39, 36, true) == scan_half(s, 40, 36, true));
    assert(scan_half(s, 40, 36, true) == scan_half(s, 41, 36, true));
    assert(scan_half(s, 41, 36, true) == scan_half(s, 42, 36, true));
    assert(s.subrange(36, 42) =~= seq!['o', 'p', '1', ':', 'i', 'n']);
    assert(is_word(seq!['o', 'p', '1'])) by {
        let w = seq!['o', 'p', '1'];
        assert forall|k: int| 0 <= k < 3 implies !is_whitespace_spec(#[trigger] w[k]) && w[k] != ':' by {
            assert(k == 0 || k == 1 || k == 2);
        }
    }
    assert(is_word(seq!['i', 'n'])) by {
        let w = seq!['i', 'n'];
        assert forall|k: int| 0 <= k < 2 implies !is_whitespace_spec(#[trigger] w[k]) && w[k] != ':' by {
            assert(k == 0 || k == 1);
        }
    }
    lemma_classify_variable(seq!['o', 'p', '1'], seq!['i', 'n']);
    assert(seq!['o', 'p', '1', ':', 'i', 'n'] =~= seq!['o', 'p', '1'] + seq![':'] + seq!['i', 'n']);
    assert(scan_half(s, 42, 36, true) == scan_half(s, 43, 43, false));
    assert(scan_half(s, 43, 43, false) == scan_half(s, 44, 43, false));
    assert(scan_half(s, 44, 43, false) == scan_half(s, 45, 43, false));
    assert(scan_half(s, 45, 43, false) == scan_half(s, 47, 46, true));
    assert(scan_half(s, 47, 46, true) == scan_half(s, 48, 46, true));
    assert(scan_half(s, 48, 46, true) == scan_half(s, 49, 46, true));
    assert(scan_half(s, 49, 46, true) == scan_half(s, 50, 46, true));
    assert(scan_half(s, 50, 46, true) == scan_half(s, 51, 46, true));
    assert(scan_half(s, 51, 46, true) == scan_half(s, 52, 46, true));
}

proof fn lemma_add_template_3()
    ensures
        scan_half("\n            const {out:out} = add({op1:in}, {op2:in});\n            { inner }\n        "@, 52, 46, true) == Some(77int),
{
    reveal_strlit("\n            const {out:out} = add({op1:in}, {op2:in});\n            { inner }\n        ");
    let s = "\n            const {out:out} = add({op1:in}, {op2:in});\n            { inner }\n        "@;
    assert(s.subrange(46, 52) =~= seq!['o', 'p', '2', ':', 'i', 'n']);
    assert(is_word(seq!['o', 'p', '2'])) by {
        let w = seq!['o', 'p', '2'];
        assert forall|k: int| 0 <= k < 3 implies !is_whitespace_spec(#[trigger] w[k]) && w[k] != ':' by {
            assert(k == 0 || k == 1 || k == 2);
        }
    }
    assert(is_word(seq!['i', 'n'])) by {
        let w = seq!['i', 'n'];
        assert forall|k: int| 0 <= k < 2 implies !is_whitespace_spec(#[trigger] w[k]) && w[k] != ':' by {
            assert(k == 0 || k == 1);
        }
    }
    lemma_classify_variable(seq!['o', 'p', '2'], seq!['i', 'n']);
    assert(seq!['o', 'p', '2', ':', 'i', 'n'] =~= seq!['o', 'p', '2'] + seq![':'] + seq!['i', 'n']);
    assert(scan_half(s, 52, 46, true) == scan_half(s, 53, 53, false));
    assert(scan_half(s, 53, 53, false) == scan_half(s, 54, 53, false));
    assert(scan_half(s, 54, 53, false) == scan_half(s, 55, 53, false));
    assert(skip_indents_spec(s, 56, 0) == (12nat, 68int)) by {
        assert(skip_indents_spec(s, 56, 0) == skip_indents_spec(s, 57, 1));
        assert(skip_indents_spec(s, 57, 1) == skip_indents_spec(s, 58, 2));
        assert(skip_indents_spec(s, 58, 2) == skip_indents_spec(s, 59, 3));
        assert(skip_indents_spec(s, 59, 3) == skip_indents_spec(s, 60, 4));
        assert(skip_indents_spec(s, 60, 4) == skip_indents_spec(s, 61, 5));
        assert(skip_indents_spec(s, 61, 5) == skip_indents_spec(s, 62, 6));
        assert(skip_indents_spec(s, 62, 6) == skip_indents_spec(s, 63, 7));
        assert(skip_indents_spec(s, 63, 7) == skip_indents_spec(s, 64, 8));
        assert(skip_indents_spec(s, 64, 8) == skip_indents_spec(s, 65, 9));
        assert(skip_indents_spec(s, 65, 9) == skip_indents_spec(s, 66, 10));
        assert(skip_indents_spec(s, 66, 10) == skip_indents_spec(s, 67, 11));
        assert(skip_indents_spec(s, 67, 11) == skip_indents_spec(s, 68, 12));
        assert(skip_indents_spec(s, 68, 12) == (12nat, 68int));
    }
    assert(scan_half(s, 55, 53, false) == scan_half(s, 68, 68, false));
    assert(scan_half(s, 68, 68, false) == scan_half(s, 70, 69, true));
    assert(scan_half(s, 70, 69, true) == scan_half(s, 71, 69, true));
    assert(scan_half(s, 71, 69, true) == scan_half(s, 72, 69, true));
    assert(scan_half(s, 72, 69, true) == scan_half(s, 73, 69, true));
    assert(scan_half(s, 73, 69, true) == scan_half(s, 74, 69, true));
    assert(scan_half(s, 74, 69, true) == scan_half(s, 75, 69, true));
    assert(scan_half(s, 75, 69, true) == scan_half(s, 76, 69, true));
    assert(s.subrange(69, 76) =~= seq![' ', 'i', 'n', 'n', 'e', 'r', ' ']);
    lemma_classify_inner();
    assert(seq![' ', 'i', 'n', 'n', 'e', 'r', ' '] =~= seq![' '] + inner_word() + seq![' ']);
    assert(scan_half(s, 76, 69, true) == Some(77int));
}

proof fn lemma_add_template_4()
    ensures
        scan_half("\n            const {out:out} = add({op1:in}, {op2:in});\n            { inner }\n        "@, 77, 77, false) == Some(86int),
{
    reveal_strlit("\n            const {out:out} = add({op1:in}, {op2:in});\n            { inner }\n        ");
    let s = "\n            const {out:out} = add({op1:in}, {op2:in});\n            { inner }\n        "@;
    assert(skip_indents_spec(s, 78, 0) == (8nat, 86int)) by {
        assert(skip_indents_spec(s, 78, 0) == skip_indents_spec(s, 79, 1));
        assert(skip_indents_spec(s, 79, 1) == skip_indents_spec(s, 80, 2));
        assert(skip_indents_spec(s, 80, 2) == skip_indents_spec(s, 81, 3));
        assert(skip_indents_spec(s, 81, 3) == skip_indents_spec(s, 82, 4));
        assert(skip_indents_spec(s, 82, 4) == skip_indents_spec(s, 83, 5));
        assert(skip_indents_spec(s, 83, 5) == skip_indents_spec(s, 84, 6));
        assert(skip_indents_spec(s, 84, 6) == skip_indents_spec(s, 85, 7));
        assert(skip_indents_spec(s, 85, 7) == skip_indents_spec(s, 86, 8));
        assert(skip_indents_spec(s, 86, 8) == (8nat, 86int));
    }
    assert(scan_half(s, 77, 77, false) == scan_half(s, 86, 86, false));
    assert(scan_half(s, 86, 86, false) == Some(86int));
}

/// The `add` builtin builds from its templates.
proof fn lemma_add_builds()
    ensures
        build_builtin(builtin_sources_spec()[4]) is Ok,
{
    let b = builtin_sources_spec()[4];
    lemma_add_template();
    lemma_template_parses(b.template);
    assert(b.brackets.len() == 0);
}

/// The template of the `sub` builtin parses.
proof fn lemma_sub_template()
    ensures
        template_parses("\n            const {out:out} = sub({op1:in}, {op2:in});\n            { inner }\n        "@),
{
    reveal_strlit("\n            const {out:out} = sub({op1:in}, {op2:in});\n            { inner }\n        ");
    let s = "\n            const {out:out} = sub({op1:in}, {op2:in});\n            { inner }\n        "@;
    assert(s.len() == 86);
    assert(skip_indents_spec(s, 0, 0) == (12nat, 13int)) by {
        assert(skip_indents_spec(s, 0, 0) == skip_indents_spec(s, 1, 0));
        assert(skip_indents_spec(s, 1, 0) == skip_indents_spec(s, 2, 1));
        assert(skip_indents_spec(s, 2, 1) == skip_indents_spec(s, 3, 2));
        assert(skip_indents_spec(s, 3, 2) == skip_indents_spec(s, 4, 3));
        assert(skip_indents_spec(s, 4, 3) == skip_indents_spec(s, 5, 4));
        assert(skip_indents_spec(s, 5, 4) == skip_indents_spec(s, 6, 5));
        assert(skip_indents_spec(s, 6, 5) == skip_indents_spec(s, 7, 6));
        assert(skip_indents_spec(s, 7, 6) == skip_indents_spec(s, 8, 7));
        assert(skip_indents_spec(s, 8, 7) == skip_indents_spec(s, 9, 8));
        assert(skip_indents_spec(s, 9, 8) == skip_indents_spec(s, 10, 9));
        assert(skip_indents_spec(s, 10, 9) == skip_indents_spec(s, 11, 10));
        assert(skip_indents_spec(s, 11, 10) == skip_indents_spec(s, 12, 11));
        assert(skip_indents_spec(s, 12, 11) == skip_indents_spec(s, 13, 12));
        assert(skip_indents_spec(s, 13, 12) == (12nat, 13int));
    }
    lemma_sub_template_0();
    lemma_sub_template_1();
    lemma_sub_template_2();
    lemma_sub_template_3();
    lemma_sub_template_4();
}

proof fn lemma_sub_template_0()
    ensures
        scan_half("\n            const {out:out} = sub({op1:in}, {op2:in});\n            { inner }\n        "@, 13, 13, false) == scan_half("\n            const {out:out} = sub({op1:in}, {op2:in});\n            { inner }\n        "@, 26, 20, true),
{
    reveal_strlit("\n            const {out:out} = sub({op1:in}, {op2:in});\n            { inner }\n        ");
    let s = "\n            const {out:out} = sub({op1:in}, {op2:in});\n            { inner }\n        "@;
    assert(scan_half(s, 13, 13, false) == scan_half(s, 14, 13, false));
    assert(scan_half(s, 14, 13, false) == scan_half(s, 15, 13, false));
    assert(scan_half(s, 15, 13, false) == scan_half(s, 16, 13, false));
    assert(scan_half(s, 16, 13, false) == scan_half(s, 17, 13, false));
    assert(scan_half(s, 17, 13, false) == scan_half(s, 18, 13, false));
    assert(scan_half(s, 18, 13, false) == scan_half(s, 19, 13, false));
    assert(scan_half(s, 19, 13, false) == scan_half(s, 21, 20, true));
    assert(scan_half(s, 21, 20, true) == scan_half(s, 22, 20, true));
    assert(scan_half(s, 22, 20, true) == scan_half(s, 23, 20, true));
    assert(scan_half(s, 23, 20, true) == scan_half(s, 24, 20, true));
    assert(scan_half(s, 24, 20, true) == scan_half(s, 25, 20, true));
    assert(scan_half(s, 25, 20, true) == scan_half(s, 26, 20, true));
}

proof fn lemma_sub_template_1()
    ensures
        scan_half("\n            const {out:out} = sub({op1:in}, {op2:in});\n            { inner }\n        "@, 26, 20, true) == scan_half("\n            const {out:out} = sub({op1:in}, {op2:in});\n            { inner }\n        "@, 39, 36, true),
{
    reveal_strlit("\n            const {out:out} = sub({op1:in}, {op2:in});\n            { inner }\n        ");
    let s = "\n            const {out:out} = sub({op1:in}, {op2:in});\n            { inner }\n        "@;
    assert(scan_half(s, 26, 20, true) == scan_half(s, 27, 20, true));
    assert(s.subrange(20, 27) =~= seq!['o', 'u', 't', ':', 'o', 'u', 't']);
    assert(is_word(seq!['o', 'u', 't'])) by {
        let w = seq!['o', 'u', 't'];
        assert forall|k: int| 0 <= k < 3 implies !is_whitespace_spec(#[trigger] w[k]) && w[k] != ':' by {
            assert(k == 0 || k == 1 || k == 2);
        }
    }
    lemma_classify_variable(seq!['o', 'u', 't'], seq!['o', 'u', 't']);
    assert(seq!['o', 'u', 't', ':', 'o', 'u', 't'] =~= seq!['o', 'u', 't'] + seq![':'] + seq!['o', 'u', 't']);
    assert(scan_half(s, 27, 20, true) == scan_half(s, 28, 28, false));
    assert(scan_half(s, 28, 28, false) == scan_half(s, 29, 28, false));
    assert(scan_half(s, 29, 28, false) == scan_half(s, 30, 28, false));
    assert(scan_half(s, 30, 28, false) == scan_half(s, 31, 28, false));
    assert(scan_half(s, 31, 28, false) == scan_half(s, 32, 28, false));
    assert(scan_half(s, 32, 28, false) == scan_half(s, 33, 28, false));
    assert(scan_half(s, 33, 28, false) == scan_half(s, 34, 28, false));
    assert(scan_half(s, 34, 28, false) == scan_half(s, 35, 28, false));
    assert(scan_half(s, 35, 28, false) == scan_half(s, 37, 36, true));
    assert(scan_half(s, 37, 36, true) == scan_half(s, 38, 36, true));
    assert(scan_half(s, 38, 36, true) == scan_half(s, 39, 36, true));
}

proof fn lemma_sub_template_2()
    ensures
        scan_half("\n            const {out:out} = sub({op1:in}, {op2:in});\n            { inner }\n        "@, 39, 36, true) == scan_half("\n            const {out:out} = sub({op1:in}, {op2:in});\n            { inner }\n        "@, 52, 46, true),
{
    reveal_strlit("\n            const {out:out} = sub({op1:in}, {op2:in});\n            { inner }\n        ");
    let s = "\n            const {out:out} = sub({op1:in}, {op2:in});\n            { inner }\n        "@;
    assert(scan_half(s, 39, 36, true) == scan_half(s, 40, 36, true));
    assert(scan_half(s, 40, 36, true) == scan_half(s, 41, 36, true));
    assert(scan_half(s, 41, 36, true) == scan_half(s, 42, 36, true));
    assert(s.subrange(36, 42) =~= seq!['o', 'p', '1', ':', 'i', 'n']);
    assert(is_word(seq!['o', 'p', '1'])) by {
        let w = seq!['o', 'p', '1'];
        assert forall|k: int| 0 <= k < 3 implies !is_whitespace_spec(#[trigger] w[k]) && w[k] != ':' by {
            assert(k == 0 || k == 1 || k == 2);
        }
    }
    assert(is_word(seq!['i', 'n'])) by {
        let w = seq!['i', 'n'];
        assert forall|k: int| 0 <= k < 2 implies !is_whitespace_spec(#[trigger] w[k]) && w[k] != ':' by {
            assert(k == 0 || k == 1);
        }
    }
    lemma_classify_variable(seq!['o', 'p', '1'], seq!['i', 'n']);
    assert(seq!['o', 'p', '1', ':', 'i', 'n'] =~= seq!['o', 'p', '1'] + seq![':'] + seq!['i', 'n']);
    assert(scan_half(s, 42, 36, true) == scan_half(s, 43, 43, false));
    assert(scan_half(s, 43, 43, false) == scan_half(s, 44, 43, false));
    assert(scan_half(s, 44, 43, false) == scan_half(s, 45, 43, false));
    assert(scan_half(s, 45, 43, false) == scan_half(s, 47, 46, true));
    assert(scan_half(s, 47, 46, true) == scan_half(s, 48, 46, true));
    assert(scan_half(s, 48, 46, true) == scan_half(s, 49, 46, true));
    assert(scan_half(s, 49, 46, true) == scan_half(s, 50, 46, true));
    assert(scan_half(s, 50, 46, true) == scan_half(s, 51, 46, true));
    assert(scan_half(s, 51, 46, true) == scan_half(s, 52, 46, true));
}

proof fn lemma_sub_template_3()
    ensures
        scan_half("\n            const {out:out} = sub({op1:in}, {op2:in});\n            { inner }\n        "@, 52, 46, true) == Some(77int),
{
    reveal_strlit("\n            const {out:out} = sub({op1:in}, {op2:in});\n            { inner }\n        ");
    let s = "\n            const {out:out} = sub({op1:in}, {op2:in});\n            { inner }\n        "@;
    assert(s.subrange(46, 52) =~= seq!['o', 'p', '2', ':', 'i', 'n']);
    assert(is_word(seq!['o', 'p', '2'])) by {
        let w = seq!['o', 'p', '2'];
        assert forall|k: int| 0 <= k < 3 implies !is_whitespace_spec(#[trigger] w[k]) && w[k] != ':' by {
            assert(k == 0 || k == 1 || k == 2);
        }
    }
    assert(is_word(seq!['i', 'n'])) by {
        let w = seq!['i', 'n'];
        assert forall|k: int| 0 <= k < 2 implies !is_whitespace_spec(#[trigger] w[k]) && w[k] != ':' by {
            assert(k == 0 || k == 1);
        }
    }
    lemma_classify_variable(seq!['o', 'p', '2'], seq!['i', 'n']);
    assert(seq!['o', 'p', '2', ':', 'i', 'n'] =~= seq!['o', 'p', '2'] + seq![':'] + seq!['i', 'n']);
    assert(scan_half(s, 52, 46, true) == scan_half(s, 53, 53, false));
    assert(scan_half(s, 53, 53, false) == scan_half(s, 54, 53, false));
    assert(scan_half(s, 54, 53, false) == scan_half(s, 55, 53, false));
    assert(skip_indents_spec(s, 56, 0) == (12nat, 68int)) by {
        assert(skip_indents_spec(s, 56, 0) == skip_indents_spec(s, 57, 1));
        assert(skip_indents_spec(s, 57, 1) == skip_indents_spec(s, 58, 2));
        assert(skip_indents_spec(s, 58, 2) == skip_indents_spec(s, 59, 3));
        assert(skip_indents_spec(s, 59, 3) == skip_indents_spec(s, 60, 4));
        assert(skip_indents_spec(s, 60, 4) == skip_indents_spec(s, 61, 5));
        assert(skip_indents_spec(s, 61, 5) == skip_indents_spec(s, 62, 6));
        assert(skip_indents_spec(s, 62, 6) == skip_indents_spec(s, 63, 7));
        assert(skip_indents_spec(s, 63, 7) == skip_indents_spec(s, 64, 8));
        assert(skip_indents_spec(s, 64, 8) == skip_indents_spec(s, 65, 9));
        assert(skip_indents_spec(s, 65, 9) == skip_indents_spec(s, 66, 10));
        assert(skip_indents_spec(s, 66, 10) == skip_indents_spec(s, 67, 11));
        assert(skip_indents_spec(s, 67, 11) == skip_indents_spec(s, 68, 12));
        assert(skip_indents_spec(s, 68, 12) == (12nat, 68int));
    }
    assert(scan_half(s, 55, 53, false) == scan_half(s, 68, 68, false));
    assert(scan_half(s, 68, 68, false) == scan_half(s, 70, 69, true));
    assert(scan_half(s, 70, 69, true) == scan_half(s, 71, 69, true));
    assert(scan_half(s, 71, 69, true) == scan_half(s, 72, 69, true));
    assert(scan_half(s, 72, 69, true) == scan_half(s, 73, 69, true));
    assert(scan_half(s, 73, 69, true) == scan_half(s, 74, 69, true));
    assert(scan_half(s, 74, 69, true) == scan_half(s, 75, 69, true));
    assert(scan_half(s, 75, 69, true) == scan_half(s, 76, 69, true));
    assert(s.subrange(69, 76) =~= seq![' ', 'i', 'n', 'n', 'e', 'r', ' ']);
    lemma_classify_inner();
    assert(seq![' ', 'i', 'n', 'n', 'e', 'r', ' '] =~= seq![' '] + inner_word() + seq![' ']);
    assert(scan_half(s, 76, 69, true) == Some(77int));
}

proof fn lemma_sub_template_4()
    ensures
        scan_half("\n            const {out:out} = sub({op1:in}, {op2:in});\n            { inner }\n        "@, 77, 77, false) == Some(86int),
{
    reveal_strlit("\n            const {out:out} = sub({op1:in}, {op2:in});\n            { inner }\n        ");
    let s = "\n            const {out:out} = sub({op1:in}, {op2:in});\n            { inner }\n        "@;
    assert(skip_indents_spec(s, 78, 0) == (8nat, 86int)) by {
        assert(skip_indents_spec(s, 78, 0) == skip_indents_spec(s, 79, 1));
        assert(skip_indents_spec(s, 79, 1) == skip_indents_spec(s, 80, 2));
        assert(skip_indents_spec(s, 80, 2) == skip_indents_spec(s, 81, 3));
        assert(skip_indents_spec(s, 81, 3) == skip_indents_spec(s, 82, 4));
        assert(skip_indents_spec(s, 82, 4) == skip_indents_spec(s, 83, 5));
        assert(skip_indents_spec(s, 83, 5) == skip_indents_spec(s, 84, 6));
        assert(skip_indents_spec(s, 84, 6) == skip_indents_spec(s, 85, 7));
        assert(skip_indents_spec(s, 85, 7) == skip_indents_spec(s, 86, 8));
        assert(skip_indents_spec(s, 86, 8) == (8nat, 86int));
    }
    assert(scan_half(s, 77, 77, false) == scan_half(s, 86, 86, false));
    assert(scan_half(s, 86, 86, false) == Some(86int));
}

/// The `sub` builtin builds from its templates.
proof fn lemma_sub_builds()
    ensures
        build_builtin(builtin_sources_spec()[5]) is Ok,
{
    let b = builtin_sources_spec()[5];
    lemma_sub_template();
    lemma_template_parses(b.template);
    assert(b.brackets.len() == 0);
}

/// The template of the `mul` builtin parses.
proof fn lemma_mul_template()
    ensures
        template_parses("\n            const {out:out} = mul({op1:in}, {op2:in});\n            { inner }\n        "@),
{
    reveal_strlit("\n            const {out:out} = mul({op1:in}, {op2:in});\n            { inner }\n        ");
    let s = "\n            const {out:out} = mul({op1:in}, {op2:in});\n            { inner }\n        "@;
    assert(s.len() == 86);
    assert(skip_indents_spec(s, 0, 0) == (12nat, 13int)) by {
        assert(skip_indents_spec(s, 0, 0) == skip_indents_spec(s, 1, 0));
        assert(skip_indents_spec(s, 1, 0) == skip_indents_spec(s, 2, 1));
        assert(skip_indents_spec(s, 2, 1) == skip_indents_spec(s, 3, 2));
        assert(skip_indents_spec(s, 3, 2) == skip_indents_spec(s, 4, 3));
        assert(skip_indents_spec(s, 4, 3) == skip_indents_spec(s, 5, 4));
        assert(skip_indents_spec(s, 5, 4) == skip_indents_spec(s, 6, 5));
        assert(skip_indents_spec(s, 6, 5) == skip_indents_spec(s, 7, 6));
        assert(skip_indents_spec(s, 7, 6) == skip_indents_spec(s, 8, 7));
        assert(skip_indents_spec(s, 8, 7) == skip_indents_spec(s, 9, 8));
        assert(skip_indents_spec(s, 9, 8) == skip_indents_spec(s, 10, 9));
        assert(skip_indents_spec(s, 10, 9) == skip_indents_spec(s, 11, 10));
        assert(skip_indents_spec(s, 11, 10) == skip_indents_spec(s, 12, 11));
        assert(skip_indents_spec(s, 12, 11) == skip_indents_spec(s, 13, 12));
        assert(skip_indents_spec(s, 13, 12) == (12nat, 13int));
    }
    lemma_mul_template_0();
    lemma_mul_template_1();
    lemma_mul_template_2();
    lemma_mul_template_3();
    lemma_mul_template_4();
}

proof fn lemma_mul_template_0()
    ensures
        scan_half("\n            const {out:out} = mul({op1:in}, {op2:in});\n            { inner }\n        "@, 13, 13, false) == scan_half("\n            const {out:out} = mul({op1:in}, {op2:in});\n            { inner }\n        "@, 26, 20, true),
{
    reveal_strlit("\n            const {out:out} = mul({op1:in}, {op2:in});\n            { inner }\n        ");
    let s = "\n            const {out:out} = mul({op1:in}, {op2:in});\n            { inner }\n        "@;
    assert(scan_half(s, 13, 13, false) == scan_half(s, 14, 13, false));
    assert(scan_half(s, 14, 13, false) == scan_half(s, 15, 13, false));
    assert(scan_half(s, 15, 13, false) == scan_half(s, 16, 13, false));
    assert(scan_half(s, 16, 13, false) == scan_half(s, 17, 13, false));
    assert(scan_half(s, 17, 13, false) == scan_half(s, 18, 13, false));
    assert(scan_half(s, 18, 13, false) == scan_half(s, 19, 13, false));
    assert(scan_half(s, 19, 13, false) == scan_half(s, 21, 20, true));
    assert(scan_half(s, 21, 20, true) == scan_half(s, 22, 20, true));
    assert(scan_half(s, 22, 20, true) == scan_half(s, 23, 20, true));
    assert(scan_half(s, 23, 20, true) == scan_half(s, 24, 20, true));
    assert(scan_half(s, 24, 20, true) == scan_half(s, 25, 20, true));
    assert(scan_half(s, 25, 20, true) == scan_half(s, 26, 20, true));
}

proof fn lemma_mul_template_1()
    ensures
        scan_half("\n            const {out:out} = mul({op1:in}, {op2:in});\n            { inner }\n        "@, 26, 20, true) == scan_half("\n            const {out:out} = mul({op1:in}, {op2:in});\n            { inner }\n        "@, 39, 36, true),
{
    reveal_strlit("\n            const {out:out} = mul({op1:in}, {op2:in});\n            { inner }\n        ");
    let s = "\n            const {out:out} = mul({op1:in}, {op2:in});\n            { inner }\n        "@;
    assert(scan_half(s, 26, 20, true) == scan_half(s, 27, 20, true));
    assert(s.subrange(20, 27) =~= seq!['o', 'u', 't', ':', 'o', 'u', 't']);
    assert(is_word(seq!['o', 'u', 't'])) by {
        let w = seq!['o', 'u', 't'];
        assert forall|k: int| 0 <= k < 3 implies !is_whitespace_spec(#[trigger] w[k]) && w[k] != ':' by {
            assert(k == 0 || k == 1 || k == 2);
        }
    }
    lemma_classify_variable(seq!['o', 'u', 't'], seq!['o', 'u', 't']);
    assert(seq!['o', 'u', 't', ':', 'o', 'u', 't'] =~= seq!['o', 'u', 't'] + seq![':'] + seq!['o', 'u', 't']);
    assert(scan_half(s, 27, 20, true) == scan_half(s, 28, 28, false));
    assert(scan_half(s, 28, 28, false) == scan_half(s, 29, 28, false));
    assert(scan_half(s, 29, 28, false) == scan_half(s, 30, 28, false));
    assert(scan_half(s, 30, 28, false) == scan_half(s, 31, 28, false));
    assert(scan_half(s, 31, 28, false) == scan_half(s, 32, 28, false));
    assert(scan_half(s, 32, 28, false) == scan_half(s, 33, 28, false));
    assert(scan_half(s, 33, 28, false) == scan_half(s, 34, 28, false));
    assert(scan_half(s, 34, 28, false) == scan_half(s, 35, 28, false));
    assert(scan_half(s, 35, 28, false) == scan_half(s, 37, 36, true));
    assert(scan_half(s, 37, 36, true) == scan_half(s, 38, 36, true));
    assert(scan_half(s, 38, 36, true) == scan_half(s, 39, 36, true));
}

proof fn lemma_mul_template_2()
    ensures
        scan_half("\n            const {out:out} = mul({op1:in}, {op2:in});\n            { inner }\n        "@, 39, 36, true) == scan_half("\n            const {out:out} = mul({op1:in}, {op2:in});\n            { inner }\n        "@, 52, 46, true),
{
    reveal_strlit("\n            const {out:out} = mul({op1:in}, {op2:in});\n            { inner }\n        ");
    let s = "\n            const {out:out} = mul({op1:in}, {op2:in});\n            { inner }\n        "@;
    assert(scan_half(s, 39, 36, true) == scan_half(s, 40, 36, true));
    assert(scan_half(s, 40, 36, true) == scan_half(s, 41, 36, true));
    assert(scan_half(s, 41, 36, true) == scan_half(s, 42, 36, true));
    assert(s.subrange(36, 42) =~= seq!['o', 'p', '1', ':', 'i', 'n']);
    assert(is_word(seq!['o', 'p', '1'])) by {
        let w = seq!['o', 'p', '1'];
        assert forall|k: int| 0 <= k < 3 implies !is_whitespace_spec(#[trigger] w[k]) && w[k] != ':' by {
            assert(k == 0 || k == 1 || k == 2);
        }
    }
    assert(is_word(seq!['i', 'n'])) by {
        let w = seq!['i', 'n'];
        assert forall|k: int| 0 <= k < 2 implies !is_whitespace_spec(#[trigger] w[k]) && w[k] != ':' by {
            assert(k == 0 || k == 1);
        }
    }
    lemma_classify_variable(seq!['o', 'p', '1'], seq!['i', 'n']);
    assert(seq!['o', 'p', '1', ':', 'i', 'n'] =~= seq!['o', 'p', '1'] + seq![':'] + seq!['i', 'n']);
    assert(scan_half(s, 42, 36, true) == scan_half(s, 43, 43, false));
    assert(scan_half(s, 43, 43, false) == scan_half(s, 44, 43, false));
    assert(scan_half(s, 44, 43, false) == scan_half(s, 45, 43, false));
    assert(scan_half(s, 45, 43, false) == scan_half(s, 47, 46, true));
    assert(scan_half(s, 47, 46, true) == scan_half(s, 48, 46, true));
    assert(scan_half(s, 48, 46, true) == scan_half(s, 49, 46, true));
    assert(scan_half(s, 49, 46, true) == scan_half(s, 50, 46, true));
    assert(scan_half(s, 50, 46, true) == scan_half(s, 51, 46, true));
    assert(scan_half(s, 51, 46, true) == scan_half(s, 52, 46, true));
}

proof fn lemma_mul_template_3()
    ensures
        scan_half("\n            const {out:out} = mul({op1:in}, {op2:in});\n            { inner }\n        "@, 52, 46, true) == Some(77int),
{
    reveal_strlit("\n            const {out:out} = mul({op1:in}, {op2:in});\n            { inner }\n        ");
    let s = "\n            const {out:out} = mul({op1:in}, {op2:in});\n            { inner }\n        "@;
    assert(s.subrange(46, 52) =~= seq!['o', 'p', '2', ':', 'i', 'n']);
    assert(is_word(seq!['o', 'p', '2'])) by {
        let w = seq!['o', 'p', '2'];
        assert forall|k: int| 0 <= k < 3 implies !is_whitespace_spec(#[trigger] w[k]) && w[k] != ':' by {
            assert(k == 0 || k == 1 || k == 2);
        }
    }
    assert(is_word(seq!['i', 'n'])) by {
        let w = seq!['i', 'n'];
        assert forall|k: int| 0 <= k < 2 implies !is_whitespace_spec(#[trigger] w[k]) && w[k] != ':' by {
            assert(k == 0 || k == 1);
        }
    }
    lemma_classify_variable(seq!['o', 'p', '2'], seq!['i', 'n']);
    assert(seq!['o', 'p', '2', ':', 'i', 'n'] =~= seq!['o', 'p', '2'] + seq![':'] + seq!['i', 'n']);
    assert(scan_half(s, 52, 46, true) == scan_half(s, 53, 53, false));
    assert(scan_half(s, 53, 53, false) == scan_half(s, 54, 53, false));
    assert(scan_half(s, 54, 53, false) == scan_half(s, 55, 53, false));
    assert(skip_indents_spec(s, 56, 0) == (12nat, 68int)) by {
        assert(skip_indents_spec(s, 56, 0) == skip_indents_spec(s, 57, 1));
        assert(skip_indents_spec(s, 57, 1) == skip_indents_spec(s, 58, 2));
        assert(skip_indents_spec(s, 58, 2) == skip_indents_spec(s, 59, 3));
        assert(skip_indents_spec(s, 59, 3) == skip_indents_spec(s, 60, 4));
        assert(skip_indents_spec(s, 60, 4) == skip_indents_spec(s, 61, 5));
        assert(skip_indents_spec(s, 61, 5) == skip_indents_spec(s, 62, 6));
        assert(skip_indents_spec(s, 62, 6) == skip_indents_spec(s, 63, 7));
        assert(skip_indents_spec(s, 63, 7) == skip_indents_spec(s, 64, 8));
        assert(skip_indents_spec(s, 64, 8) == skip_indents_spec(s, 65, 9));
        assert(skip_indents_spec(s, 65, 9) == skip_indents_spec(s, 66, 10));
        assert(skip_indents_spec(s, 66, 10) == skip_indents_spec(s, 67, 11));
        assert(skip_indents_spec(s, 67, 11) == skip_indents_spec(s, 68, 12));
        assert(skip_indents_spec(s, 68, 12) == (12nat, 68int));
    }
    assert(scan_half(s, 55, 53, false) == scan_half(s, 68, 68, false));
    assert(scan_half(s, 68, 68, false) == scan_half(s, 70, 69, true));
    assert(scan_half(s, 70, 69, true) == scan_half(s, 71, 69, true));
    assert(scan_half(s, 71, 69, true) == scan_half(s, 72, 69, true));
    assert(scan_half(s, 72, 69, true) == scan_half(s, 73, 69, true));
    assert(scan_half(s, 73, 69, true) == scan_half(s, 74, 69, true));
    assert(scan_half(s, 74, 69, true) == scan_half(s, 75, 69, true));
    assert(scan_half(s, 75, 69, true) == scan_half(s, 76, 69, true));
    assert(s.subrange(69, 76) =~= seq![' ', 'i', 'n', 'n', 'e', 'r', ' ']);
    lemma_classify_inner();
    assert(seq![' ', 'i', 'n', 'n', 'e', 'r', ' '] =~= seq![' '] + inner_word() + seq![' ']);
    assert(scan_half(s, 76, 69, true) == Some(77int));
}

proof fn lemma_mul_template_4()
    ensures
        scan_half("\n            const {out:out} = mul({op1:in}, {op2:in});\n            { inner }\n        "@, 77, 77, false) == Some(86int),
{
    reveal_strlit("\n            const {out:out} = mul({op1:in}, {op2:in});\n            { inner }\n        ");
    let s = "\n            const {out:out} = mul({op1:in}, {op2:in});\n            { inner }\n        "@;
    assert(skip_indents_spec(s, 78, 0) == (8nat, 86int)) by {
        assert(skip_indents_spec(s, 78, 0) == skip_indents_spec(s, 79, 1));
        assert(skip_indents_spec(s, 79, 1) == skip_indents_spec(s, 80, 2));
        assert(skip_indents_spec(s, 80, 2) == skip_indents_spec(s, 81, 3));
        assert(skip_indents_spec(s, 81, 3) == skip_indents_spec(s, 82, 4));
        assert(skip_indents_spec(s, 82, 4) == skip_indents_spec(s, 83, 5));
        assert(skip_indents_spec(s, 83, 5) == skip_indents_spec(s, 84, 6));
        assert(skip_indents_spec(s, 84, 6) == skip_indents_spec(s, 85, 7));
        assert(skip_indents_spec(s, 85, 7) == skip_indents_spec(s, 86, 8));
        assert(skip_indents_spec(s, 86, 8) == (8nat, 86int));
    }
    assert(scan_half(s, 77, 77, false) == scan_half(s, 86, 86, false));
    assert(scan_half(s, 86, 86, false) == Some(86int));
}

/// The `mul` builtin builds from its templates.
proof fn lemma_mul_builds()
    ensures
        build_builtin(builtin_sources_spec()[6]) is Ok,
{
    let b = builtin_sources_spec()[6];
    lemma_mul_template();
    lemma_template_parses(b.template);
    assert(b.brackets.len() == 0);
}

/// The template of the `div` builtin parses.
proof fn lemma_div_template()
    ensures
        template_parses("\n            const {out:out} = div({op1:in}, {op2:in});\n            { inner }\n            "@),
{
    reveal_strlit("\n            const {out:out} = div({op1:in}, {op2:in});\n            { inner }\n            ");
    let s = "\n            const {out:out} = div({op1:in}, {op2:in});\n            { inner }\n            "@;
    assert(s.len() == 90);
    assert(skip_indents_spec(s, 0, 0) == (12nat, 13int)) by {
        assert(skip_indents_spec(s, 0, 0) == skip_indents_spec(s, 1, 0));
        assert(skip_indents_spec(s, 1, 0) == skip_indents_spec(s, 2, 1));
        assert(skip_indents_spec(s, 2, 1) == skip_indents_spec(s, 3, 2));
        assert(skip_indents_spec(s, 3, 2) == skip_indents_spec(s, 4, 3));
        assert(skip_indents_spec(s, 4, 3) == skip_indents_spec(s, 5, 4));
        assert(skip_indents_spec(s, 5, 4) == skip_indents_spec(s, 6, 5));
        assert(skip_indents_spec(s, 6, 5) == skip_indents_spec(s, 7, 6));
        assert(skip_indents_spec(s, 7, 6) == skip_indents_spec(s, 8, 7));
        assert(skip_indents_spec(s, 8, 7) == skip_indents_spec(s, 9, 8));
        assert(skip_indents_spec(s, 9, 8) == skip_indents_spec(s, 10, 9));
        assert(skip_indents_spec(s, 10, 9) == skip_indents_spec(s, 11, 10));
        assert(skip_indents_spec(s, 11, 10) == skip_indents_spec(s, 12, 11));
        assert(skip_indents_spec(s, 12, 11) == skip_indents_spec(s, 13, 12));
        assert(skip_indents_spec(s, 13, 12) == (12nat, 13int));
    }
    lemma_div_template_0();
    lemma_div_template_1();
    lemma_div_template_2();
    lemma_div_template_3();
    lemma_div_template_4();
}

proof fn lemma_div_template_0()
    ensures
        scan_half("\n            const {out:out} = div({op1:in}, {op2:in});\n            { inner }\n            "@, 13, 13, false) == scan_half("\n            const {out:out} = div({op1:in}, {op2:in});\n            { inner }\n            "@, 26, 20, true),
{
    reveal_strlit("\n            const {out:out} = div({op1:in}, {op2:in});\n            { inner }\n            ");
    let s = "\n            const {out:out} = div({op1:in}, {op2:in});\n            { inner }\n            "@;
    assert(scan_half(s, 13, 13, false) == scan_half(s, 14, 13, false));
    assert(scan_half(s, 14, 13, false) == scan_half(s, 15, 13, false));
    assert(scan_half(s, 15, 13, false) == scan_half(s, 16, 13, false));
    assert(scan_half(s, 16, 13, false) == scan_half(s, 17, 13, false));
    assert(scan_half(s, 17, 13, false) == scan_half(s, 18, 13, false));
    assert(scan_half(s, 18, 13, false) == scan_half(s, 19, 13, false));
    assert(scan_half(s, 19, 13, false) == scan_half(s, 21, 20, true));
    assert(scan_half(s, 21, 20, true) == scan_half(s, 22, 20, true));
    assert(scan_half(s, 22, 20, true) == scan_half(s, 23, 20, true));
    assert(scan_half(s, 23, 20, true) == scan_half(s, 24, 20, true));
    assert(scan_half(s, 24, 20, true) == scan_half(s, 25, 20, true));
    assert(scan_half(s, 25, 20, true) == scan_half(s, 26, 20, true));
}

proof fn lemma_div_template_1()
    ensures
        scan_half("\n            const {out:out} = div({op1:in}, {op2:in});\n            { inner }\n            "@, 26, 20, true) == scan_half("\n            const {out:out} = div({op1:in}, {op2:in});\n            { inner }\n            "@, 39, 36, true),
{
    reveal_strlit("\n            const {out:out} = div({op1:in}, {op2:in});\n            { inner }\n            ");
    let s = "\n            const {out:out} = div({op1:in}, {op2:in});\n            { inner }\n            "@;
    assert(scan_half(s, 26, 20, true) == scan_half(s, 27, 20, true));
    assert(s.subrange(20, 27) =~= seq!['o', 'u', 't', ':', 'o', 'u', 't']);
    assert(is_word(seq!['o', 'u', 't'])) by {
        let w = seq!['o', 'u', 't'];
        assert forall|k: int| 0 <= k < 3 implies !is_whitespace_spec(#[trigger] w[k]) && w[k] != ':' by {
            assert(k == 0 || k == 1 || k == 2);
        }
    }
    lemma_classify_variable(seq!['o', 'u', 't'], seq!['o', 'u', 't']);
    assert(seq!['o', 'u', 't', ':', 'o', 'u', 't'] =~= seq!['o', 'u', 't'] + seq![':'] + seq!['o', 'u', 't']);
    assert(scan_half(s, 27, 20, true) == scan_half(s, 28, 28, false));
    assert(scan_half(s, 28, 28, false) == scan_half(s, 29, 28, false));
    assert(scan_half(s, 29, 28, false) == scan_half(s, 30, 28, false));
    assert(scan_half(s, 30, 28, false) == scan_half(s, 31, 28, false));
    assert(scan_half(s, 31, 28, false) == scan_half(s, 32, 28, false));
    assert(scan_half(s, 32, 28, false) == scan_half(s, 33, 28, false));
    assert(scan_half(s, 33, 28, false) == scan_half(s, 34, 28, false));
    assert(scan_half(s, 34, 28, false) == scan_half(s, 35, 28, false));
    assert(scan_half(s, 35, 28, false) == scan_half(s, 37, 36, true));
    assert(scan_half(s, 37, 36, true) == scan_half(s, 38, 36, true));
    assert(scan_half(s, 38, 36, true) == scan_half(s, 39, 36, true));
}

proof fn lemma_div_template_2()
    ensures
        scan_half("\n            const {out:out} = div({op1:in}, {op2:in});\n            { inner }\n            "@, 39, 36, true) == scan_half("\n            const {out:out} = div({op1:in}, {op2:in});\n            { inner }\n            "@, 52, 46, true),
{
    reveal_strlit("\n            const {out:out} = div({op1:in}, {op2:in});\n            { inner }\n            ");
    let s = "\n            const {out:out} = div({op1:in}, {op2:in});\n            { inner }\n            "@;
    assert(scan_half(s, 39, 36, true) == scan_half(s, 40, 36, true));
    assert(scan_half(s, 40, 36, true) == scan_half(s, 41, 36, true));
    assert(scan_half(s, 41, 36, true) == scan_half(s, 42, 36, true));
    assert(s.subrange(36, 42) =~= seq!['o', 'p', '1', ':', 'i', 'n']);
    assert(is_word(seq!['o', 'p', '1'])) by {
        let w = seq!['o', 'p', '1'];
        assert forall|k: int| 0 <= k < 3 implies !is_whitespace_spec(#[trigger] w[k]) && w[k] != ':' by {
            assert(k == 0 || k == 1 || k == 2);
        }
    }
    assert(is_word(seq!['i', 'n'])) by {
        let w = seq!['i', 'n'];
        assert forall|k: int| 0 <= k < 2 implies !is_whitespace_spec(#[trigger] w[k]) && w[k] != ':' by {
            assert(k == 0 || k == 1);
        }
    }
    lemma_classify_variable(seq!['o', 'p', '1'], seq!['i', 'n']);
    assert(seq!['o', 'p', '1', ':', 'i', 'n'] =~= seq!['o', 'p', '1'] + seq![':'] + seq!['i', 'n']);
    assert(scan_half(s, 42, 36, true) == scan_half(s, 43, 43, false));
    assert(scan_half(s, 43, 43, false) == scan_half(s, 44, 43, false));
    assert(scan_half(s, 44, 43, false) == scan_half(s, 45, 43, false));
    assert(scan_half(s, 45, 43, false) == scan_half(s, 47, 46, true));
    assert(scan_half(s, 47, 46, true) == scan_half(s, 48, 46, true));
    assert(scan_half(s, 48, 46, true) == scan_half(s, 49, 46, true));
    assert(scan_half(s, 49, 46, true) == scan_half(s, 50, 46, true));
    assert(scan_half(s, 50, 46, true) == scan_half(s, 51, 46, true));
    assert(scan_half(s, 51, 46, true) == scan_half(s, 52, 46, true));
}

proof fn lemma_div_template_3()
    ensures
        scan_half("\n            const {out:out} = div({op1:in}, {op2:in});\n            { inner }\n            "@, 52, 46, true) == Some(77int),
{
    reveal_strlit("\n            const {out:out} = div({op1:in}, {op2:in});\n            { inner }\n            ");
    let s = "\n            const {out:out} = div({op1:in}, {op2:in});\n            { inner }\n            "@;
    assert(s.subrange(46, 52) =~= seq!['o', 'p', '2', ':', 'i', 'n']);
    assert(is_word(seq!['o', 'p', '2'])) by {
        let w = seq!['o', 'p', '2'];
        assert forall|k: int| 0 <= k < 3 implies !is_whitespace_spec(#[trigger] w[k]) && w[k] != ':' by {
            assert(k == 0 || k == 1 || k == 2);
        }
    }
    assert(is_word(seq!['i', 'n'])) by {
        let w = seq!['i', 'n'];
        assert forall|k: int| 0 <= k < 2 implies !is_whitespace_spec(#[trigger] w[k]) && w[k] != ':' by {
            assert(k == 0 || k == 1);
        }
    }
    lemma_classify_variable(seq!['o', 'p', '2'], seq!['i', 'n']);
    assert(seq!['o', 'p', '2', ':', 'i', 'n'] =~= seq!['o', 'p', '2'] + seq![':'] + seq!['i', 'n']);
    assert(scan_half(s, 52, 46, true) == scan_half(s, 53, 53, false));
    assert(scan_half(s, 53, 53, false) == scan_half(s, 54, 53, false));
    assert(scan_half(s, 54, 53, false) == scan_half(s, 55, 53, false));
    assert(skip_indents_spec(s, 56, 0) == (12nat, 68int)) by {
        assert(skip_indents_spec(s, 56, 0) == skip_indents_spec(s, 57, 1));
        assert(skip_indents_spec(s, 57, 1) == skip_indents_spec(s, 58, 2));
        assert(skip_indents_spec(s, 58, 2) == skip_indents_spec(s, 59, 3));
        assert(skip_indents_spec(s, 59, 3) == skip_indents_spec(s, 60, 4));
        assert(skip_indents_spec(s, 60, 4) == skip_indents_spec(s, 61, 5));
        assert(skip_indents_spec(s, 61, 5) == skip_indents_spec(s, 62, 6));
        assert(skip_indents_spec(s, 62, 6) == skip_indents_spec(s, 63, 7));
        assert(skip_indents_spec(s, 63, 7) == skip_indents_spec(s, 64, 8));
        assert(skip_indents_spec(s, 64, 8) == skip_indents_spec(s, 65, 9));
        assert(skip_indents_spec(s, 65, 9) == skip_indents_spec(s, 66, 10));
        assert(skip_indents_spec(s, 66, 10) == skip_indents_spec(s, 67, 11));
        assert(skip_indents_spec(s, 67, 11) == skip_indents_spec(s, 68, 12));
        assert(skip_indents_spec(s, 68, 12) == (12nat, 68int));
    }
    assert(scan_half(s, 55, 53, false) == scan_half(s, 68, 68, false));
    assert(scan_half(s, 68, 68, false) == scan_half(s, 70, 69, true));
    assert(scan_half(s, 70, 69, true) == scan_half(s, 71, 69, true));
    assert(scan_half(s, 71, 69, true) == scan_half(s, 72, 69, true));
    assert(scan_half(s, 72, 69, true) == scan_half(s, 73, 69, true));
    assert(scan_half(s, 73, 69, true) == scan_half(s, 74, 69, true));
    assert(scan_half(s, 74, 69, true) == scan_half(s, 75, 69, true));
    assert(scan_half(s, 75, 69, true) == scan_half(s, 76, 69, true));
    assert(s.subrange(69, 76) =~= seq![' ', 'i', 'n', 'n', 'e', 'r', ' ']);
    lemma_classify_inner();
    assert(seq![' ', 'i', 'n', 'n', 'e', 'r', ' '] =~= seq![' '] + inner_word() + seq![' ']);
    assert(scan_half(s, 76, 69, true) == Some(77int));
}

proof fn lemma_div_template_4()
    ensures
        scan_half("\n            const {out:out} = div({op1:in}, {op2:in});\n            { inner }\n            "@, 77, 77, false) == Some(90int),
{
    reveal_strlit("\n            const {out:out} = div({op1:in}, {op2:in});\n            { inner }\n            ");
    let s = "\n            const {out:out} = div({op1:in}, {op2:in});\n            { inner }\n            "@;
    assert(skip_indents_spec(s, 78, 0) == (12nat, 90int)) by {
        assert(skip_indents_spec(s, 78, 0) == skip_indents_spec(s, 79, 1));
        assert(skip_indents_spec(s, 79, 1) == skip_indents_spec(s, 80, 2));
        assert(skip_indents_spec(s, 80, 2) == skip_indents_spec(s, 81, 3));
        assert(skip_indents_spec(s, 81, 3) == skip_indents_spec(s, 82, 4));
        assert(skip_indents_spec(s, 82, 4) == skip_indents_spec(s, 83, 5));
        assert(skip_indents_spec(s, 83, 5) == skip_indents_spec(s, 84, 6));
        assert(skip_indents_spec(s, 84, 6) == skip_indents_spec(s, 85, 7));
        assert(skip_indents_spec(s, 85, 7) == skip_indents_spec(s, 86, 8));
        assert(skip_indents_spec(s, 86, 8) == skip_indents_spec(s, 87, 9));
        assert(skip_indents_spec(s, 87, 9) == skip_indents_spec(s, 88, 10));
        assert(skip_indents_spec(s, 88, 10) == skip_indents_spec(s, 89, 11));
        assert(skip_indents_spec(s, 89, 11) == skip_indents_spec(s, 90, 12));
        assert(skip_indents_spec(s, 90, 12) == (12nat, 90int));
    }
    assert(scan_half(s, 77, 77, false) == scan_half(s, 90, 90, false));
    assert(scan_half(s, 90, 90, false) == Some(90int));
}

/// The `div` builtin builds from its templates.
proof fn lemma_div_builds()
    ensures
        build_builtin(builtin_sources_spec()[7]) is Ok,
{
    let b = builtin_sources_spec()[7];
    lemma_div_template();
    lemma_template_parses(b.template);
    assert(b.brackets.len() == 0);
}

/// The template of the `eq` builtin parses.
proof fn lemma_eq_template()
    ensures
        template_parses("\n            const {out:out} = eq({op1:in}, {op2:in});\n            { inner }\n            "@),
{
    reveal_strlit("\n            const {out:out} = eq({op1:in}, {op2:in});\n            { inner }\n            ");
    let s = "\n            const {out:out} = eq({op1:in}, {op2:in});\n            { inner }\n            "@;
    assert(s.len() == 89);
    assert(skip_indents_spec(s, 0, 0) == (12nat, 13int)) by {
        assert(skip_indents_spec(s, 0, 0) == skip_indents_spec(s, 1, 0));
        assert(skip_indents_spec(s, 1, 0) == skip_indents_spec(s, 2, 1));
        assert(skip_indents_spec(s, 2, 1) == skip_indents_spec(s, 3, 2));
        assert(skip_indents_spec(s, 3, 2) == skip_indents_spec(s, 4, 3));
        assert(skip_indents_spec(s, 4, 3) == skip_indents_spec(s, 5, 4));
        assert(skip_indents_spec(s, 5, 4) == skip_indents_spec(s, 6, 5));
        assert(skip_indents_spec(s, 6, 5) == skip_indents_spec(s, 7, 6));
        assert(skip_indents_spec(s, 7, 6) == skip_indents_spec(s, 8, 7));
        assert(skip_indents_spec(s, 8, 7) == skip_indents_spec(s, 9, 8));
        assert(skip_indents_spec(s, 9, 8) == skip_indents_spec(s, 10, 9));
        assert(skip_indents_spec(s, 10, 9) == skip_indents_spec(s, 11, 10));
        assert(skip_indents_spec(s, 11, 10) == skip_indents_spec(s, 12, 11));
        assert(skip_indents_spec(s, 12, 11) == skip_indents_spec(s, 13, 12));
        assert(skip_indents_spec(s, 13, 12) == (12nat, 13int));
    }
    lemma_eq_template_0();
    lemma_eq_template_1();
    lemma_eq_template_2();
    lemma_eq_template_3();
    lemma_eq_template_4();
}

proof fn lemma_eq_template_0()
    ensures
        scan_half("\n            const {out:out} = eq({op1:in}, {op2:in});\n            { inner }\n            "@, 13, 13, false) == scan_half("\n            const {out:out} = eq({op1:in}, {op2:in});\n            { inner }\n            "@, 26, 20, true),
{
    reveal_strlit("\n            const {out:out} = eq({op1:in}, {op2:in});\n            { inner }\n            ");
    let s = "\n            const {out:out} = eq({op1:in}, {op2:in});\n            { inner }\n            "@;
    assert(scan_half(s, 13, 13, false) == scan_half(s, 14, 13, false));
    assert(scan_half(s, 14, 13, false) == scan_half(s, 15, 13, false));
    assert(scan_half(s, 15, 13, false) == scan_half(s, 16, 13, false));
    assert(scan_half(s, 16, 13, false) == scan_half(s, 17, 13, false));
    assert(scan_half(s, 17, 13, false) == scan_half(s, 18, 13, false));
    assert(scan_half(s, 18, 13, false) == scan_half(s, 19, 13, false));
    assert(scan_half(s, 19, 13, false) == scan_half(s, 21, 20, true));
    assert(scan_half(s, 21, 20, true) == scan_half(s, 22, 20, true));
    assert(scan_half(s, 22, 20, true) == scan_half(s, 23, 20, true));
    assert(scan_half(s, 23, 20, true) == scan_half(s, 24, 20, true));
    assert(scan_half(s, 24, 20, true) == scan_half(s, 25, 20, true));
    assert(scan_half(s, 25, 20, true) == scan_half(s, 26, 20, true));
}

proof fn lemma_eq_template_1()
    ensures
        scan_half("\n            const {out:out} = eq({op1:in}, {op2:in});\n            { inner }\n            "@, 26, 20, true) == scan_half("\n            const {out:out} = eq({op1:in}, {op2:in});\n            { inner }\n            "@, 39, 35, true),
{
    reveal_strlit("\n            const {out:out} = eq({op1:in}, {op2:in});\n            { inner }\n            ");
    let s = "\n            const {out:out} = eq({op1:in}, {op2:in});\n            { inner }\n            "@;
    assert(scan_half(s, 26, 20, true) == scan_half(s, 27, 20, true));
    assert(s.subrange(20, 27) =~= seq!['o', 'u', 't', ':', 'o', 'u', 't']);
    assert(is_word(seq!['o', 'u', 't'])) by {
        let w = seq!['o', 'u', 't'];
        assert forall|k: int| 0 <= k < 3 implies !is_whitespace_spec(#[trigger] w[k]) && w[k] != ':' by {
            assert(k == 0 || k == 1 || k == 2);
        }
    }
    lemma_classify_variable(seq!['o', 'u', 't'], seq!['o', 'u', 't']);
    assert(seq!['o', 'u', 't', ':', 'o', 'u', 't'] =~= seq!['o', 'u', 't'] + seq![':'] + seq!['o', 'u', 't']);
    assert(scan_half(s, 27, 20, true) == scan_half(s, 28, 28, false));
    assert(scan_half(s, 28, 28, false) == scan_half(s, 29, 28, false));
    assert(scan_half(s, 29, 28, false) == scan_half(s, 30, 28, false));
    assert(scan_half(s, 30, 28, false) == scan_half(s, 31, 28, false));
    assert(scan_half(s, 31, 28, false) == scan_half(s, 32, 28, false));
    assert(scan_half(s, 32, 28, false) == scan_half(s, 33, 28, false));
    assert(scan_half(s, 33, 28, false) == scan_half(s, 34, 28, false));
    assert(scan_half(s, 34, 28, false) == scan_half(s, 36, 35, true));
    assert(scan_half(s, 36, 35, true) == scan_half(s, 37, 35, true));
    assert(scan_half(s, 37, 35, true) == scan_half(s, 38, 35, true));
    assert(scan_half(s, 38, 35, true) == scan_half(s, 39, 35, true));
}

proof fn lemma_eq_template_2()
    ensures
        scan_half("\n            const {out:out} = eq({op1:in}, {op2:in});\n            { inner }\n            "@, 39, 35, true) == scan_half("\n            const {out:out} = eq({op1:in}, {op2:in});\n            { inner }\n            "@, 52, 52, false),
{
    reveal_strlit("\n            const {out:out} = eq({op1:in}, {op2:in});\n            { inner }\n            ");
    let s = "\n            const {out:out} = eq({op1:in}, {op2:in});\n            { inner }\n            "@;
    assert(scan_half(s, 39, 35, true) == scan_half(s, 40, 35, true));
    assert(scan_half(s, 40, 35, true) == scan_half(s, 41, 35, true));
    assert(s.subrange(35, 41) =~= seq!['o', 'p', '1', ':', 'i', 'n']);
    assert(is_word(seq!['o', 'p', '1'])) by {
        let w = seq!['o', 'p', '1'];
        assert forall|k: int| 0 <= k < 3 implies !is_whitespace_spec(#[trigger] w[k]) && w[k] != ':' by {
            assert(k == 0 || k == 1 || k == 2);
        }
    }
    assert(is_word(seq!['i', 'n'])) by {
        let w = seq!['i', 'n'];
        assert forall|k: int| 0 <= k < 2 implies !is_whitespace_spec(#[trigger] w[k]) && w[k] != ':' by {
            assert(k == 0 || k == 1);
        }
    }
    lemma_classify_variable(seq!['o', 'p', '1'], seq!['i', 'n']);
    assert(seq!['o', 'p', '1', ':', 'i', 'n'] =~= seq!['o', 'p', '1'] + seq![':'] + seq!['i', 'n']);
    assert(scan_half(s, 41, 35, true) == scan_half(s, 42, 42, false));
    assert(scan_half(s, 42, 42, false) == scan_half(s, 43, 42, false));
    assert(scan_half(s, 43, 42, false) == scan_half(s, 44, 42, false));
    assert(scan_half(s, 44, 42, false) == scan_half(s, 46, 45, true));
    assert(scan_half(s, 46, 45, true) == scan_half(s, 47, 45, true));
    assert(scan_half(s, 47, 45, true) == scan_half(s, 48, 45, true));
    assert(scan_half(s, 48, 45, true) == scan_half(s, 49, 45, true));
    assert(scan_half(s, 49, 45, true) == scan_half(s, 50, 45, true));
    assert(scan_half(s, 50, 45, true) == scan_half(s, 51, 45, true));
    assert(s.subrange(45, 51) =~= seq!['o', 'p', '2', ':', 'i', 'n']);
    assert(is_word(seq!['o', 'p', '2'])) by {
        let w = seq!['o', 'p', '2'];
        assert forall|k: int| 0 <= k < 3 implies !is_whitespace_spec(#[trigger] w[k]) && w[k] != ':' by {
            assert(k == 0 || k == 1 || k == 2);
        }
    }
    lemma_classify_variable(seq!['o', 'p', '2'], seq!['i', 'n']);
    assert(seq!['o', 'p', '2', ':', 'i', 'n'] =~= seq!['o', 'p', '2'] + seq![':'] + seq!['i', 'n']);
    assert(scan_half(s, 51, 45, true) == scan_half(s, 52, 52, false));
}

proof fn lemma_eq_template_3()
    ensures
        scan_half("\n            const {out:out} = eq({op1:in}, {op2:in});\n            { inner }\n            "@, 52, 52, false) == Some(76int),
{
    reveal_strlit("\n            const {out:out} = eq({op1:in}, {op2:in});\n            { inner }\n            ");
    let s = "\n            const {out:out} = eq({op1:in}, {op2:in});\n            { inner }\n            "@;
    assert(scan_half(s, 52, 52, false) == scan_half(s, 53, 52, false));
    assert(scan_half(s, 53, 52, false) == scan_half(s, 54, 52, false));
    assert(skip_indents_spec(s, 55, 0) == (12nat, 67int)) by {
        assert(skip_indents_spec(s, 55, 0) == skip_indents_spec(s, 56, 1));
        assert(skip_indents_spec(s, 56, 1) == skip_indents_spec(s, 57, 2));
        assert(skip_indents_spec(s, 57, 2) == skip_indents_spec(s, 58, 3));
        assert(skip_indents_spec(s, 58, 3) == skip_indents_spec(s, 59, 4));
        assert(skip_indents_spec(s, 59, 4) == skip_indents_spec(s, 60, 5));
        assert(skip_indents_spec(s, 60, 5) == skip_indents_spec(s, 61, 6));
        assert(skip_indents_spec(s, 61, 6) == skip_indents_spec(s, 62, 7));
        assert(skip_indents_spec(s, 62, 7) == skip_indents_spec(s, 63, 8));
        assert(skip_indents_spec(s, 63, 8) == skip_indents_spec(s, 64, 9));
        assert(skip_indents_spec(s, 64, 9) == skip_indents_spec(s, 65, 10));
        assert(skip_indents_spec(s, 65, 10) == skip_indents_spec(s, 66, 11));
        assert(skip_indents_spec(s, 66, 11) == skip_indents_spec(s, 67, 12));
        assert(skip_indents_spec(s, 67, 12) == (12nat, 67int));
    }
    assert(scan_half(s, 54, 52, false) == scan_half(s, 67, 67, false));
    assert(scan_half(s, 67, 67, false) == scan_half(s, 69, 68, true));
    assert(scan_half(s, 69, 68, true) == scan_half(s, 70, 68, true));
    assert(scan_half(s, 70, 68, true) == scan_half(s, 71, 68, true));
    assert(scan_half(s, 71, 68, true) == scan_half(s, 72, 68, true));
    assert(scan_half(s, 72, 68, true) == scan_half(s, 73, 68, true));
    assert(scan_half(s, 73, 68, true) == scan_half(s, 74, 68, true));
    assert(scan_half(s, 74, 68, true) == scan_half(s, 75, 68, true));
    assert(s.subrange(68, 75) =~= seq![' ', 'i', 'n', 'n', 'e', 'r', ' ']);
    lemma_classify_inner();
    assert(seq![' ', 'i', 'n', 'n', 'e', 'r', ' '] =~= seq![' '] + inner_word() + seq![' ']);
    assert(scan_half(s, 75, 68, true) == Some(76int));
}

proof fn lemma_eq_template_4()
    ensures
        scan_half("\n            const {out:out} = eq({op1:in}, {op2:in});\n            { inner }\n            "@, 76, 76, false) == Some(89int),
{
    reveal_strlit("\n            const {out:out} = eq({op1:in}, {op2:in});\n            { inner }\n            ");
    let s = "\n            const {out:out} = eq({op1:in}, {op2:in});\n            { inner }\n            "@;
    assert(skip_indents_spec(s, 77, 0) == (12nat, 89int)) by {
        assert(skip_indents_spec(s, 77, 0) == skip_indents_spec(s, 78, 1));
        assert(skip_indents_spec(s, 78, 1) == skip_indents_spec(s, 79, 2));
        assert(skip_indents_spec(s, 79, 2) == skip_indents_spec(s, 80, 3));
        assert(skip_indents_spec(s, 80, 3) == skip_indents_spec(s, 81, 4));
        assert(skip_indents_spec(s, 81, 4) == skip_indents_spec(s, 82, 5));
        assert(skip_indents_spec(s, 82, 5) == skip_indents_spec(s, 83, 6));
        assert(skip_indents_spec(s, 83, 6) == skip_indents_spec(s, 84, 7));
        assert(skip_indents_spec(s, 84, 7) == skip_indents_spec(s, 85, 8));
        assert(skip_indents_spec(s, 85, 8) == skip_indents_spec(s, 86, 9));
        assert(skip_indents_spec(s, 86, 9) == skip_indents_spec(s, 87, 10));
        assert(skip_indents_spec(s, 87, 10) == skip_indents_spec(s, 88, 11));
        assert(skip_indents_spec(s, 88, 11) == skip_indents_spec(s, 89, 12));
        assert(skip_indents_spec(s, 89, 12) == (12nat, 89int));
    }
    assert(scan_half(s, 76, 76, false) == scan_half(s, 89, 89, false));
    assert(scan_half(s, 89, 89, false) == Some(89int));
}

/// The `eq` builtin builds from its templates.
proof fn lemma_eq_builds()
    ensures
        build_builtin(builtin_sources_spec()[8]) is Ok,
{
    let b = builtin_sources_spec()[8];
    lemma_eq_template();
    lemma_template_parses(b.template);
    assert(b.brackets.len() == 0);
}

/// The template of the `iter` builtin parses.
proof fn lemma_iter_template()
    ensures
        template_parses("\n            for (const {out:out} of iter({op1:in})){{\n                { inner }\n            }}\n            "@),
{
    reveal_strlit("\n            for (const {out:out} of iter({op1:in})){{\n                { inner }\n            }}\n            ");
    let s = "\n            for (const {out:out} of iter({op1:in})){{\n                { inner }\n            }}\n            "@;
    assert(s.len() == 108);
    assert(skip_indents_spec(s, 0, 0) == (12nat, 13int)) by {
        assert(skip_indents_spec(s, 0, 0) == skip_indents_spec(s, 1, 0));
        assert(skip_indents_spec(s, 1, 0) == skip_indents_spec(s, 2, 1));
        assert(skip_indents_spec(s, 2, 1) == skip_indents_spec(s, 3, 2));
        assert(skip_indents_spec(s, 3, 2) == skip_indents_spec(s, 4, 3));
        assert(skip_indents_spec(s, 4, 3) == skip_indents_spec(s, 5, 4));
        assert(skip_indents_spec(s, 5, 4) == skip_indents_spec(s, 6, 5));
        assert(skip_indents_spec(s, 6, 5) == skip_indents_spec(s, 7, 6));
        assert(skip_indents_spec(s, 7, 6) == skip_indents_spec(s, 8, 7));
        assert(skip_indents_spec(s, 8, 7) == skip_indents_spec(s, 9, 8));
        assert(skip_indents_spec(s, 9, 8) == skip_indents_spec(s, 10, 9));
        assert(skip_indents_spec(s, 10, 9) == skip_indents_spec(s, 11, 10));
        assert(skip_indents_spec(s, 11, 10) == skip_indents_spec(s, 12, 11));
        assert(skip_indents_spec(s, 12, 11) == skip_indents_spec(s, 13, 12));
        assert(skip_indents_spec(s, 13, 12) == (12nat, 13int));
    }
    lemma_iter_template_0();
    lemma_iter_template_1();
    lemma_iter_template_2();
    lemma_iter_template_3();
    lemma_iter_template_4();
}

proof fn lemma_iter_template_0()
    ensures
        scan_half("\n            for (const {out:out} of iter({op1:in})){{\n                { inner }\n            }}\n            "@, 13, 13, false) == scan_half("\n            for (const {out:out} of iter({op1:in})){{\n                { inner }\n            }}\n            "@, 26, 25, true),
{
    reveal_strlit("\n            for (const {out:out} of iter({op1:in})){{\n                { inner }\n            }}\n            ");
    let s = "\n            for (const {out:out} of iter({op1:in})){{\n                { inner }\n            }}\n            "@;
    assert(scan_half(s, 13, 13, false) == scan_half(s, 14, 13, false));
    assert(scan_half(s, 14, 13, false) == scan_half(s, 15, 13, false));
    assert(scan_half(s, 15, 13, false) == scan_half(s, 16, 13, false));
    assert(scan_half(s, 16, 13, false) == scan_half(s, 17, 13, false));
    assert(scan_half(s, 17, 13, false) == scan_half(s, 18, 13, false));
    assert(scan_half(s, 18, 13, false) == scan_half(s, 19, 13, false));
    assert(scan_half(s, 19, 13, false) == scan_half(s, 20, 13, false));
    assert(scan_half(s, 20, 13, false) == scan_half(s, 21, 13, false));
    assert(scan_half(s, 21, 13, false) == scan_half(s, 22, 13, false));
    assert(scan_half(s, 22, 13, false) == scan_half(s, 23, 13, false));
    assert(scan_half(s, 23, 13, false) == scan_half(s, 24, 13, false));
    assert(scan_half(s, 24, 13, false) == scan_half(s, 26, 25, true));
}

proof fn lemma_iter_template_1()
    ensures
        scan_half("\n            for (const {out:out} of iter({op1:in})){{\n                { inner }\n            }}\n            "@, 26, 25, true) == scan_half("\n            for (const {out:out} of iter({op1:in})){{\n                { inner }\n            }}\n            "@, 38, 33, false),
{
    reveal_strlit("\n            for (const {out:out} of iter({op1:in})){{\n                { inner }\n            }}\n            ");
    let s = "\n            for (const {out:out} of iter({op1:in})){{\n                { inner }\n            }}\n            "@;
    assert(scan_half(s, 26, 25, true) == scan_half(s, 27, 25, true));
    assert(scan_half(s, 27, 25, true) == scan_half(s, 28, 25, true));
    assert(scan_half(s, 28, 25, true) == scan_half(s, 29, 25, true));
    assert(scan_half(s, 29, 25, true) == scan_half(s, 30, 25, true));
    assert(scan_half(s, 30, 25, true) == scan_half(s, 31, 25, true));
    assert(scan_half(s, 31, 25, true) == scan_half(s, 32, 25, true));
    assert(s.subrange(25, 32) =~= seq!['o', 'u', 't', ':', 'o', 'u', 't']);
    assert(is_word(seq!['o', 'u', 't'])) by {
        let w = seq!['o', 'u', 't'];
        assert forall|k: int| 0 <= k < 3 implies !is_whitespace_spec(#[trigger] w[k]) && w[k] != ':' by {
            assert(k == 0 || k == 1 || k == 2);
        }
    }
    lemma_classify_variable(seq!['o', 'u', 't'], seq!['o', 'u', 't']);
    assert(seq!['o', 'u', 't', ':', 'o', 'u', 't'] =~= seq!['o', 'u', 't'] + seq![':'] + seq!['o', 'u', 't']);
    assert(scan_half(s, 32, 25, true) == scan_half(s, 33, 33, false));
    assert(scan_half(s, 33, 33, false) == scan_half(s, 34, 33, false));
    assert(scan_half(s, 34, 33, false) == scan_half(s, 35, 33, false));
    assert(scan_half(s, 35, 33, false) == scan_half(s, 36, 33, false));
    assert(scan_half(s, 36, 33, false) == scan_half(s, 37, 33, false));
    assert(scan_half(s, 37, 33, false) == scan_half(s, 38, 33, false));
}

proof fn lemma_iter_template_2()
    ensures
        scan_half("\n            for (const {out:out} of iter({op1:in})){{\n                { inner }\n            }}\n            "@, 38, 33, false) == scan_half("\n            for (const {out:out} of iter({op1:in})){{\n                { inner }\n            }}\n            "@, 51, 50, false),
{
    reveal_strlit("\n            for (const {out:out} of iter({op1:in})){{\n                { inner }\n            }}\n            ");
    let s = "\n            for (const {out:out} of iter({op1:in})){{\n                { inner }\n            }}\n            "@;
    assert(scan_half(s, 38, 33, false) == scan_half(s, 39, 33, false));
    assert(scan_half(s, 39, 33, false) == scan_half(s, 40, 33, false));
    assert(scan_half(s, 40, 33, false) == scan_half(s, 41, 33, false));
    assert(scan_half(s, 41, 33, false) == scan_half(s, 42, 33, false));
    assert(scan_half(s, 42, 33, false) == scan_half(s, 44, 43, true));
    assert(scan_half(s, 44, 43, true) == scan_half(s, 45, 43, true));
    assert(scan_half(s, 45, 43, true) == scan_half(s, 46, 43, true));
    assert(scan_half(s, 46, 43, true) == scan_half(s, 47, 43, true));
    assert(scan_half(s, 47, 43, true) == scan_half(s, 48, 43, true));
    assert(scan_half(s, 48, 43, true) == scan_half(s, 49, 43, true));
    assert(s.subrange(43, 49) =~= seq!['o', 'p', '1', ':', 'i', 'n']);
    assert(is_word(seq!['o', 'p', '1'])) by {
        let w = seq!['o', 'p', '1'];
        assert forall|k: int| 0 <= k < 3 implies !is_whitespace_spec(#[trigger] w[k]) && w[k] != ':' by {
            assert(k == 0 || k == 1 || k == 2);
        }
    }
    assert(is_word(seq!['i', 'n'])) by {
        let w = seq!['i', 'n'];
        assert forall|k: int| 0 <= k < 2 implies !is_whitespace_spec(#[trigger] w[k]) && w[k] != ':' by {
            assert(k == 0 || k == 1);
        }
    }
    lemma_classify_variable(seq!['o', 'p', '1'], seq!['i', 'n']);
    assert(seq!['o', 'p', '1', ':', 'i', 'n'] =~= seq!['o', 'p', '1'] + seq![':'] + seq!['i', 'n']);
    assert(scan_half(s, 49, 43, true) == scan_half(s, 50, 50, false));
    assert(scan_half(s, 50, 50, false) == scan_half(s, 51, 50, false));
}

proof fn lemma_iter_template_3()
    ensures
        scan_half("\n            for (const {out:out} of iter({op1:in})){{\n                { inner }\n            }}\n            "@, 51, 50, false) == Some(80int),
{
    reveal_strlit("\n            for (const {out:out} of iter({op1:in})){{\n                { inner }\n            }}\n            ");
    let s = "\n            for (const {out:out} of iter({op1:in})){{\n                { inner }\n            }}\n            "@;
    assert(scan_half(s, 51, 50, false) == scan_half(s, 52, 50, false));
    assert(scan_half(s, 52, 50, false) == scan_half(s, 54, 53, false));
    assert(skip_indents_spec(s, 55, 0) == (16nat, 71int)) by {
        assert(skip_indents_spec(s, 55, 0) == skip_indents_spec(s, 56, 1));
        assert(skip_indents_spec(s, 56, 1) == skip_indents_spec(s, 57, 2));
        assert(skip_indents_spec(s, 57, 2) == skip_indents_spec(s, 58, 3));
        assert(skip_indents_spec(s, 58, 3) == skip_indents_spec(s, 59, 4));
        assert(skip_indents_spec(s, 59, 4) == skip_indents_spec(s, 60, 5));
        assert(skip_indents_spec(s, 60, 5) == skip_indents_spec(s, 61, 6));
        assert(skip_indents_spec(s, 61, 6) == skip_indents_spec(s, 62, 7));
        assert(skip_indents_spec(s, 62, 7) == skip_indents_spec(s, 63, 8));
        assert(skip_indents_spec(s, 63, 8) == skip_indents_spec(s, 64, 9));
        assert(skip_indents_spec(s, 64, 9) == skip_indents_spec(s, 65, 10));
        assert(skip_indents_spec(s, 65, 10) == skip_indents_spec(s, 66, 11));
        assert(skip_indents_spec(s, 66, 11) == skip_indents_spec(s, 67, 12));
        assert(skip_indents_spec(s, 67, 12) == skip_indents_spec(s, 68, 13));
        assert(skip_indents_spec(s, 68, 13) == skip_indents_spec(s, 69, 14));
        assert(skip_indents_spec(s, 69, 14) == skip_indents_spec(s, 70, 15));
        assert(skip_indents_spec(s, 70, 15) == skip_indents_spec(s, 71, 16));
        assert(skip_indents_spec(s, 71, 16) == (16nat, 71int));
    }
    assert(scan_half(s, 54, 53, false) == scan_half(s, 71, 71, false));
    assert(scan_half(s, 71, 71, false) == scan_half(s, 73, 72, true));
    assert(scan_half(s, 73, 72, true) == scan_half(s, 74, 72, true));
    assert(scan_half(s, 74, 72, true) == scan_half(s, 75, 72, true));
    assert(scan_half(s, 75, 72, true) == scan_half(s, 76, 72, true));
    assert(scan_half(s, 76, 72, true) == scan_half(s, 77, 72, true));
    assert(scan_half(s, 77, 72, true) == scan_half(s, 78, 72, true));
    assert(scan_half(s, 78, 72, true) == scan_half(s, 79, 72, true));
    assert(s.subrange(72, 79) =~= seq![' ', 'i', 'n', 'n', 'e', 'r', ' ']);
    lemma_classify_inner();
    assert(seq![' ', 'i', 'n', 'n', 'e', 'r', ' '] =~= seq![' '] + inner_word() + seq![' ']);
    assert(scan_half(s, 79, 72, true) == Some(80int));
}

proof fn lemma_iter_template_4()
    ensures
        scan_half("\n            for (const {out:out} of iter({op1:in})){{\n                { inner }\n            }}\n            "@, 80, 80, false) == Some(108int),
{
    reveal_strlit("\n            for (const {out:out} of iter({op1:in})){{\n                { inner }\n            }}\n            ");
    let s = "\n            for (const {out:out} of iter({op1:in})){{\n                { inner }\n            }}\n            "@;
    assert(skip_indents_spec(s, 81, 0) == (12nat, 93int)) by {
        assert(skip_indents_spec(s, 81, 0) == skip_indents_spec(s, 82, 1));
        assert(skip_indents_spec(s, 82, 1) == skip_indents_spec(s, 83, 2));
        assert(skip_indents_spec(s, 83, 2) == skip_indents_spec(s, 84, 3));
        assert(skip_indents_spec(s, 84, 3) == skip_indents_spec(s, 85, 4));
        assert(skip_indents_spec(s, 85, 4) == skip_indents_spec(s, 86, 5));
        assert(skip_indents_spec(s, 86, 5) == skip_indents_spec(s, 87, 6));
        assert(skip_indents_spec(s, 87, 6) == skip_indents_spec(s, 88, 7));
        assert(skip_indents_spec(s, 88, 7) == skip_indents_spec(s, 89, 8));
        assert(skip_indents_spec(s, 89, 8) == skip_indents_spec(s, 90, 9));
        assert(skip_indents_spec(s, 90, 9) == skip_indents_spec(s, 91, 10));
        assert(skip_indents_spec(s, 91, 10) == skip_indents_spec(s, 92, 11));
        assert(skip_indents_spec(s, 92, 11) == skip_indents_spec(s, 93, 12));
        assert(skip_indents_spec(s, 93, 12) == (12nat, 93int));
    }
    assert(scan_half(s, 80, 80, false) == scan_half(s, 93, 93, false));
    assert(scan_half(s, 93, 93, false) == scan_half(s, 95, 94, false));
    assert(skip_indents_spec(s, 96, 0) == (12nat, 108int)) by {
        assert(skip_indents_spec(s, 96, 0) == skip_indents_spec(s, 97, 1));
        assert(skip_indents_spec(s, 97, 1) == skip_indents_spec(s, 98, 2));
        assert(skip_indents_spec(s, 98, 2) == skip_indents_spec(s, 99, 3));
        assert(skip_indents_spec(s, 99, 3) == skip_indents_spec(s, 100, 4));
        assert(skip_indents_spec(s, 100, 4) == skip_indents_spec(s, 101, 5));
        assert(skip_indents_spec(s, 101, 5) == skip_indents_spec(s, 102, 6));
        assert(skip_indents_spec(s, 102, 6) == skip_indents_spec(s, 103, 7));
        assert(skip_indents_spec(s, 103, 7) == skip_indents_spec(s, 104, 8));
        assert(skip_indents_spec(s, 104, 8) == skip_indents_spec(s, 105, 9));
        assert(skip_indents_spec(s, 105, 9) == skip_indents_spec(s, 106, 10));
        assert(skip_indents_spec(s, 106, 10) == skip_indents_spec(s, 107, 11));
        assert(skip_indents_spec(s, 107, 11) == skip_indents_spec(s, 108, 12));
        assert(skip_indents_spec(s, 108, 12) == (12nat, 108int));
    }
    assert(scan_half(s, 95, 94, false) == scan_half(s, 108, 108, false));
    assert(scan_half(s, 108, 108, false) == Some(108int));
}

/// The `iter` builtin builds from its templates.
proof fn lemma_iter_builds()
    ensures
        build_builtin(builtin_sources_spec()[9]) is Ok,
{
    let b = builtin_sources_spec()[9];
    lemma_iter_template();
    lemma_template_parses(b.template);
    assert(b.brackets.len() == 0);
}

/// The template of the `dup` builtin parses.
proof fn lemma_dup_template()
    ensures
        template_parses("\n            const {out1:out} = {value:in}, {out2:out} = {value:in};\n            {inner}\n            "@),
{
    reveal_strlit("\n            const {out1:out} = {value:in}, {out2:out} = {value:in};\n            {inner}\n            ");
    let s = "\n            const {out1:out} = {value:in}, {out2:out} = {value:in};\n            {inner}\n            "@;
    assert(s.len() == 101);
    assert(skip_indents_spec(s, 0, 0) == (12nat, 13int)) by {
        assert(skip_indents_spec(s, 0, 0) == skip_indents_spec(s, 1, 0));
        assert(skip_indents_spec(s, 1, 0) == skip_indents_spec(s, 2, 1));
        assert(skip_indents_spec(s, 2, 1) == skip_indents_spec(s, 3, 2));
        assert(skip_indents_spec(s, 3, 2) == skip_indents_spec(s, 4, 3));
        assert(skip_indents_spec(s, 4, 3) == skip_indents_spec(s, 5, 4));
        assert(skip_indents_spec(s, 5, 4) == skip_indents_spec(s, 6, 5));
        assert(skip_indents_spec(s, 6, 5) == skip_indents_spec(s, 7, 6));
        assert(skip_indents_spec(s, 7, 6) == skip_indents_spec(s, 8, 7));
        assert(skip_indents_spec(s, 8, 7) == skip_indents_spec(s, 9, 8));
        assert(skip_indents_spec(s, 9, 8) == skip_indents_spec(s, 10, 9));
        assert(skip_indents_spec(s, 10, 9) == skip_indents_spec(s, 11, 10));
        assert(skip_indents_spec(s, 11, 10) == skip_indents_spec(s, 12, 11));
        assert(skip_indents_spec(s, 12, 11) == skip_indents_spec(s, 13, 12));
        assert(skip_indents_spec(s, 13, 12) == (12nat, 13int));
    }
    lemma_dup_template_0();
    lemma_dup_template_1();
    lemma_dup_template_2();
    lemma_dup_template_3();
    lemma_dup_template_4();
    lemma_dup_template_5();
}

proof fn lemma_dup_template_0()
    ensures
        scan_half("\n            const {out1:out} = {value:in}, {out2:out} = {value:in};\n            {inner}\n            "@, 13, 13, false) == scan_half("\n            const {out1:out} = {value:in}, {out2:out} = {value:in};\n            {inner}\n            "@, 26, 20, true),
{
    reveal_strlit("\n            const {out1:out} = {value:in}, {out2:out} = {value:in};\n            {inner}\n            ");
    let s = "\n            const {out1:out} = {value:in}, {out2:out} = {value:in};\n            {inner}\n            "@;
    assert(scan_half(s, 13, 13, false) == scan_half(s, 14, 13, false));
    assert(scan_half(s, 14, 13, false) == scan_half(s, 15, 13, false));
    assert(scan_half(s, 15, 13, false) == scan_half(s, 16, 13, false));
    assert(scan_half(s, 16, 13, false) == scan_half(s, 17, 13, false));
    assert(scan_half(s, 17, 13, false) == scan_half(s, 18, 13, false));
    assert(scan_half(s, 18, 13, false) == scan_half(s, 19, 13, false));
    assert(scan_half(s, 19, 13, false) == scan_half(s, 21, 20, true));
    assert(scan_half(s, 21, 20, true) == scan_half(s, 22, 20, true));
    assert(scan_half(s, 22, 20, true) == scan_half(s, 23, 20, true));
    assert(scan_half(s, 23, 20, true) == scan_half(s, 24, 20, true));
    assert(scan_half(s, 24, 20, true) == scan_half(s, 25, 20, true));
    assert(scan_half(s, 25, 20, true) == scan_half(s, 26, 20, true));
}

proof fn lemma_dup_template_1()
    ensures
        scan_half("\n            const {out1:out} = {value:in}, {out2:out} = {value:in};\n            {inner}\n            "@, 26, 20, true) == scan_half("\n            const {out1:out} = {value:in}, {out2:out} = {value:in};\n            {inner}\n            "@, 39, 33, true),
{
    reveal_strlit("\n            const {out1:out} = {value:in}, {out2:out} = {value:in};\n            {inner}\n            ");
    let s = "\n            const {out1:out} = {value:in}, {out2:out} = {value:in};\n            {inner}\n            "@;
    assert(scan_half(s, 26, 20, true) == scan_half(s, 27, 20, true));
    assert(scan_half(s, 27, 20, true) == scan_half(s, 28, 20, true));
    assert(s.subrange(20, 28) =~= seq!['o', 'u', 't', '1', ':', 'o', 'u', 't']);
    assert(is_word(seq!['o', 'u', 't', '1'])) by {
        let w = seq!['o', 'u', 't', '1'];
        assert forall|k: int| 0 <= k < 4 implies !is_whitespace_spec(#[trigger] w[k]) && w[k] != ':' by {
            assert(k == 0 || k == 1 || k == 2 || k == 3);
        }
    }
    assert(is_word(seq!['o', 'u', 't'])) by {
        let w = seq!['o', 'u', 't'];
        assert forall|k: int| 0 <= k < 3 implies !is_whitespace_spec(#[trigger] w[k]) && w[k] != ':' by {
            assert(k == 0 || k == 1 || k == 2);
        }
    }
    lemma_classify_variable(seq!['o', 'u', 't', '1'], seq!['o', 'u', 't']);
    assert(seq!['o', 'u', 't', '1', ':', 'o', 'u', 't'] =~= seq!['o', 'u', 't', '1'] + seq![':'] + seq!['o', 'u', 't']);
    assert(scan_half(s, 28, 20, true) == scan_half(s, 29, 29, false));
    assert(scan_half(s, 29, 29, false) == scan_half(s, 30, 29, false));
    assert(scan_half(s, 30, 29, false) == scan_half(s, 31, 29, false));
    assert(scan_half(s, 31, 29, false) == scan_half(s, 32, 29, false));
    assert(scan_half(s, 32, 29, false) == scan_half(s, 34, 33, true));
    assert(scan_half(s, 34, 33, true) == scan_half(s, 35, 33, true));
    assert(scan_half(s, 35, 33, true) == scan_half(s, 36, 33, true));
    assert(scan_half(s, 36, 33, true) == scan_half(s, 37, 33, true));
    assert(scan_half(s, 37, 33, true) == scan_half(s, 38, 33, true));
    assert(scan_half(s, 38, 33, true) == scan_half(s, 39, 33, true));
}

proof fn lemma_dup_template_2()
    ensures
        scan_half("\n            const {out1:out} = {value:in}, {out2:out} = {value:in};\n            {inner}\n            "@, 39, 33, true) == scan_half("\n            const {out1:out} = {value:in}, {out2:out} = {value:in};\n            {inner}\n            "@, 52, 45, true),
{
    reveal_strlit("\n            const {out1:out} = {value:in}, {out2:out} = {value:in};\n            {inner}\n            ");
    let s = "\n            const {out1:out} = {value:in}, {out2:out} = {value:in};\n            {inner}\n            "@;
    assert(scan_half(s, 39, 33, true) == scan_half(s, 40, 33, true));
    assert(scan_half(s, 40, 33, true) == scan_half(s, 41, 33, true));
    assert(s.subrange(33, 41) =~= seq!['v', 'a', 'l', 'u', 'e', ':', 'i', 'n']);
    assert(is_word(seq!['v', 'a', 'l', 'u', 'e'])) by {
        let w = seq!['v', 'a', 'l', 'u', 'e'];
        assert forall|k: int| 0 <= k < 5 implies !is_whitespace_spec(#[trigger] w[k]) && w[k] != ':' by {
            assert(k == 0 || k == 1 || k == 2 || k == 3 || k == 4);
        }
    }
    assert(is_word(seq!['i', 'n'])) by {
        let w = seq!['i', 'n'];
        assert forall|k: int| 0 <= k < 2 implies !is_whitespace_spec(#[trigger] w[k]) && w[k] != ':' by {
            assert(k == 0 || k == 1);
        }
    }
    lemma_classify_variable(seq!['v', 'a', 'l', 'u', 'e'], seq!['i', 'n']);
    assert(seq!['v', 'a', 'l', 'u', 'e', ':', 'i', 'n'] =~= seq!['v', 'a', 'l', 'u', 'e'] + seq![':'] + seq!['i', 'n']);
    assert(scan_half(s, 41, 33, true) == scan_half(s, 42, 42, false));
    assert(scan_half(s, 42, 42, false) == scan_half(s, 43, 42, false));
    assert(scan_half(s, 43, 42, false) == scan_half(s, 44, 42, false));
    assert(scan_half(s, 44, 42, false) == scan_half(s, 46, 45, true));
    assert(scan_half(s, 46, 45, true) == scan_half(s, 47, 45, true));
    assert(scan_half(s, 47, 45, true) == scan_half(s, 48, 45, true));
    assert(scan_half(s, 48, 45, true) == scan_half(s, 49, 45, true));
    assert(scan_half(s, 49, 45, true) == scan_half(s, 50, 45, true));
    assert(scan_half(s, 50, 45, true) == scan_half(s, 51, 45, true));
    assert(scan_half(s, 51, 45, true) == scan_half(s, 52, 45, true));
}

proof fn lemma_dup_template_3()
    ensures
        scan_half("\n            const {out1:out} = {value:in}, {out2:out} = {value:in};\n            {inner}\n            "@, 52, 45, true) == scan_half("\n            const {out1:out} = {value:in}, {out2:out} = {value:in};\n            {inner}\n            "@, 65, 58, true),
{
    reveal_strlit("\n            const {out1:out} = {value:in}, {out2:out} = {value:in};\n            {inner}\n            ");
    let s = "\n            const {out1:out} = {value:in}, {out2:out} = {value:in};\n            {inner}\n            "@;
    assert(scan_half(s, 52, 45, true) == scan_half(s, 53, 45, true));
    assert(s.subrange(45, 53) =~= seq!['o', 'u', 't', '2', ':', 'o', 'u', 't']);
    assert(is_word(seq!['o', 'u', 't', '2'])) by {
        let w = seq!['o', 'u', 't', '2'];
        assert forall|k: int| 0 <= k < 4 implies !is_whitespace_spec(#[trigger] w[k]) && w[k] != ':' by {
            assert(k == 0 || k == 1 || k == 2 || k == 3);
        }
    }
    assert(is_word(seq!['o', 'u', 't'])) by {
        let w = seq!['o', 'u', 't'];
        assert forall|k: int| 0 <= k < 3 implies !is_whitespace_spec(#[trigger] w[k]) && w[k] != ':' by {
            assert(k == 0 || k == 1 || k == 2);
        }
    }
    lemma_classify_variable(seq!['o', 'u', 't', '2'], seq!['o', 'u', 't']);
    assert(seq!['o', 'u', 't', '2', ':', 'o', 'u', 't'] =~= seq!['o', 'u', 't', '2'] + seq![':'] + seq!['o', 'u', 't']);
    assert(scan_half(s, 53, 45, true) == scan_half(s, 54, 54, false));
    assert(scan_half(s, 54, 54, false) == scan_half(s, 55, 54, false));
    assert(scan_half(s, 55, 54, false) == scan_half(s, 56, 54, false));
    assert(scan_half(s, 56, 54, false) == scan_half(s, 57, 54, false));
    assert(scan_half(s, 57, 54, false) == scan_half(s, 59, 58, true));
    assert(scan_half(s, 59, 58, true) == scan_half(s, 60, 58, true));
    assert(scan_half(s, 60, 58, true) == scan_half(s, 61, 58, true));
    assert(scan_half(s, 61, 58, true) == scan_half(s, 62, 58, true));
    assert(scan_half(s, 62, 58, true) == scan_half(s, 63, 58, true));
    assert(scan_half(s, 63, 58, true) == scan_half(s, 64, 58, true));
    assert(scan_half(s, 64, 58, true) == scan_half(s, 65, 58, true));
}

proof fn lemma_dup_template_4()
    ensures
        scan_half("\n            const {out1:out} = {value:in}, {out2:out} = {value:in};\n            {inner}\n            "@, 65, 58, true) == Some(88int),
{
    reveal_strlit("\n            const {out1:out} = {value:in}, {out2:out} = {value:in};\n            {inner}\n            ");
    let s = "\n            const {out1:out} = {value:in}, {out2:out} = {value:in};\n            {inner}\n            "@;
    assert(scan_half(s, 65, 58, true) == scan_half(s, 66, 58, true));
    assert(s.subrange(58, 66) =~= seq!['v', 'a', 'l', 'u', 'e', ':', 'i', 'n']);
    assert(is_word(seq!['v', 'a', 'l', 'u', 'e'])) by {
        let w = seq!['v', 'a', 'l', 'u', 'e'];
        assert forall|k: int| 0 <= k < 5 implies !is_whitespace_spec(#[trigger] w[k]) && w[k] != ':' by {
            assert(k == 0 || k == 1 || k == 2 || k == 3 || k == 4);
        }
    }
    assert(is_word(seq!['i', 'n'])) by {
        let w = seq!['i', 'n'];
        assert forall|k: int| 0 <= k < 2 implies !is_whitespace_spec(#[trigger] w[k]) && w[k] != ':' by {
            assert(k == 0 || k == 1);
        }
    }
    lemma_classify_variable(seq!['v', 'a', 'l', 'u', 'e'], seq!['i', 'n']);
    assert(seq!['v', 'a', 'l', 'u', 'e', ':', 'i', 'n'] =~= seq!['v', 'a', 'l', 'u', 'e'] + seq![':'] + seq!['i', 'n']);
    assert(scan_half(s, 66, 58, true) == scan_half(s, 67, 67, false));
    assert(scan_half(s, 67, 67, false) == scan_half(s, 68, 67, false));
    assert(skip_indents_spec(s, 69, 0) == (12nat, 81int)) by {
        assert(skip_indents_spec(s, 69, 0) == skip_indents_spec(s, 70, 1));
        assert(skip_indents_spec(s, 70, 1) == skip_indents_spec(s, 71, 2));
        assert(skip_indents_spec(s, 71, 2) == skip_indents_spec(s, 72, 3));
        assert(skip_indents_spec(s, 72, 3) == skip_indents_spec(s, 73, 4));
        assert(skip_indents_spec(s, 73, 4) == skip_indents_spec(s, 74, 5));
        assert(skip_indents_spec(s, 74, 5) == skip_indents_spec(s, 75, 6));
        assert(skip_indents_spec(s, 75, 6) == skip_indents_spec(s, 76, 7));
        assert(skip_indents_spec(s, 76, 7) == skip_indents_spec(s, 77, 8));
        assert(skip_indents_spec(s, 77, 8) == skip_indents_spec(s, 78, 9));
        assert(skip_indents_spec(s, 78, 9) == skip_indents_spec(s, 79, 10));
        assert(skip_indents_spec(s, 79, 10) == skip_indents_spec(s, 80, 11));
        assert(skip_indents_spec(s, 80, 11) == skip_indents_spec(s, 81, 12));
        assert(skip_indents_spec(s, 81, 12) == (12nat, 81int));
    }
    assert(scan_half(s, 68, 67, false) == scan_half(s, 81, 81, false));
    assert(scan_half(s, 81, 81, false) == scan_half(s, 83, 82, true));
    assert(scan_half(s, 83, 82, true) == scan_half(s, 84, 82, true));
    assert(scan_half(s, 84, 82, true) == scan_half(s, 85, 82, true));
    assert(scan_half(s, 85, 82, true) == scan_half(s, 86, 82, true));
    assert(scan_half(s, 86, 82, true) == scan_half(s, 87, 82, true));
    assert(s.subrange(82, 87) =~= seq!['i', 'n', 'n', 'e', 'r']);
    lemma_classify_inner();
    assert(seq!['i', 'n', 'n', 'e', 'r'] =~= inner_word());
    assert(scan_half(s, 87, 82, true) == Some(88int));
}

proof fn lemma_dup_template_5()
    ensures
        scan_half("\n            const {out1:out} = {value:in}, {out2:out} = {value:in};\n            {inner}\n            "@, 88, 88, false) == Some(101int),
{
    reveal_strlit("\n            const {out1:out} = {value:in}, {out2:out} = {value:in};\n            {inner}\n            ");
    let s = "\n            const {out1:out} = {value:in}, {out2:out} = {value:in};\n            {inner}\n            "@;
    assert(skip_indents_spec(s, 89, 0) == (12nat, 101int)) by {
        assert(skip_indents_spec(s, 89, 0) == skip_indents_spec(s, 90, 1));
        assert(skip_indents_spec(s, 90, 1) == skip_indents_spec(s, 91, 2));
        assert(skip_indents_spec(s, 91, 2) == skip_indents_spec(s, 92, 3));
        assert(skip_indents_spec(s, 92, 3) == skip_indents_spec(s, 93, 4));
        assert(skip_indents_spec(s, 93, 4) == skip_indents_spec(s, 94, 5));
        assert(skip_indents_spec(s, 94, 5) == skip_indents_spec(s, 95, 6));
        assert(skip_indents_spec(s, 95, 6) == skip_indents_spec(s, 96, 7));
        assert(skip_indents_spec(s, 96, 7) == skip_indents_spec(s, 97, 8));
        assert(skip_indents_spec(s, 97, 8) == skip_indents_spec(s, 98, 9));
        assert(skip_indents_spec(s, 98, 9) == skip_indents_spec(s, 99, 10));
        assert(skip_indents_spec(s, 99, 10) == skip_indents_spec(s, 100, 11));
        assert(skip_indents_spec(s, 100, 11) == skip_indents_spec(s, 101, 12));
        assert(skip_indents_spec(s, 101, 12) == (12nat, 101int));
    }
    assert(scan_half(s, 88, 88, false) == scan_half(s, 101, 101, false));
    assert(scan_half(s, 101, 101, false) == Some(101int));
}

/// The `dup` builtin builds from its templates.
proof fn lemma_dup_builds()
    ensures
        build_builtin(builtin_sources_spec()[10]) is Ok,
{
    let b = builtin_sources_spec()[10];
    lemma_dup_template();
    lemma_template_parses(b.template);
    assert(b.brackets.len() == 0);
}

/// The template of the `swap` builtin parses.
proof fn lemma_swap_template()
    ensures
        template_parses("\n            const [{out1:out},{out2:out}] = [{value1:in},{value2:in}];\n            {inner}\n            "@),
{
    reveal_strlit("\n            const [{out1:out},{out2:out}] = [{value1:in},{value2:in}];\n            {inner}\n            ");
    let s = "\n            const [{out1:out},{out2:out}] = [{value1:in},{value2:in}];\n            {inner}\n            "@;
    assert(s.len() == 104);
    assert(skip_indents_spec(s, 0, 0) == (12nat, 13int)) by {
        assert(skip_indents_spec(s, 0, 0) == skip_indents_spec(s, 1, 0));
        assert(skip_indents_spec(s, 1, 0) == skip_indents_spec(s, 2, 1));
        assert(skip_indents_spec(s, 2, 1) == skip_indents_spec(s, 3, 2));
        assert(skip_indents_spec(s, 3, 2) == skip_indents_spec(s, 4, 3));
        assert(skip_indents_spec(s, 4, 3) == skip_indents_spec(s, 5, 4));
        assert(skip_indents_spec(s, 5, 4) == skip_indents_spec(s, 6, 5));
        assert(skip_indents_spec(s, 6, 5) == skip_indents_spec(s, 7, 6));
        assert(skip_indents_spec(s, 7, 6) == skip_indents_spec(s, 8, 7));
        assert(skip_indents_spec(s, 8, 7) == skip_indents_spec(s, 9, 8));
        assert(skip_indents_spec(s, 9, 8) == skip_indents_spec(s, 10, 9));
        assert(skip_indents_spec(s, 10, 9) == skip_indents_spec(s, 11, 10));
        assert(skip_indents_spec(s, 11, 10) == skip_indents_spec(s, 12, 11));
        assert(skip_indents_spec(s, 12, 11) == skip_indents_spec(s, 13, 12));
        assert(skip_indents_spec(s, 13, 12) == (12nat, 13int));
    }
    lemma_swap_template_0();
    lemma_swap_template_1();
    lemma_swap_template_2();
    lemma_swap_template_3();
    lemma_swap_template_4();
    lemma_swap_template_5();
    lemma_swap_template_6();
}

proof fn lemma_swap_template_0()
    ensures
        scan_half("\n            const [{out1:out},{out2:out}] = [{value1:in},{value2:in}];\n            {inner}\n            "@, 13, 13, false) == scan_half("\n            const [{out1:out},{out2:out}] = [{value1:in},{value2:in}];\n            {inner}\n            "@, 26, 21, true),
{
    reveal_strlit("\n            const [{out1:out},{out2:out}] = [{value1:in},{value2:in}];\n            {inner}\n            ");
    let s = "\n            const [{out1:out},{out2:out}] = [{value1:in},{value2:in}];\n            {inner}\n            "@;
    assert(scan_half(s, 13, 13, false) == scan_half(s, 14, 13, false));
    assert(scan_half(s, 14, 13, false) == scan_half(s, 15, 13, false));
    assert(scan_half(s, 15, 13, false) == scan_half(s, 16, 13, false));
    assert(scan_half(s, 16, 13, false) == scan_half(s, 17, 13, false));
    assert(scan_half(s, 17, 13, false) == scan_half(s, 18, 13, false));
    assert(scan_half(s, 18, 13, false) == scan_half(s, 19, 13, false));
    assert(scan_half(s, 19, 13, false) == scan_half(s, 20, 13, false));
    assert(scan_half(s, 20, 13, false) == scan_half(s, 22, 21, true));
    assert(scan_half(s, 22, 21, true) == scan_half(s, 23, 21, true));
    assert(scan_half(s, 23, 21, true) == scan_half(s, 24, 21, true));
    assert(scan_half(s, 24, 21, true) == scan_half(s, 25, 21, true));
    assert(scan_half(s, 25, 21, true) == scan_half(s, 26, 21, true));
}

proof fn lemma_swap_template_1()
    ensures
        scan_half("\n            const [{out1:out},{out2:out}] = [{value1:in},{value2:in}];\n            {inner}\n            "@, 26, 21, true) == scan_half("\n            const [{out1:out},{out2:out}] = [{value1:in},{value2:in}];\n            {inner}\n            "@, 39, 32, true),
{
    reveal_strlit("\n            const [{out1:out},{out2:out}] = [{value1:in},{value2:in}];\n            {inner}\n            ");
    let s = "\n            const [{out1:out},{out2:out}] = [{value1:in},{value2:in}];\n            {inner}\n            "@;
    assert(scan_half(s, 26, 21, true) == scan_half(s, 27, 21, true));
    assert(scan_half(s, 27, 21, true) == scan_half(s, 28, 21, true));
    assert(scan_half(s, 28, 21, true) == scan_half(s, 29, 21, true));
    assert(s.subrange(21, 29) =~= seq!['o', 'u', 't', '1', ':', 'o', 'u', 't']);
    assert(is_word(seq!['o', 'u', 't', '1'])) by {
        let w = seq!['o', 'u', 't', '1'];
        assert forall|k: int| 0 <= k < 4 implies !is_whitespace_spec(#[trigger] w[k]) && w[k] != ':' by {
            assert(k == 0 || k == 1 || k == 2 || k == 3);
        }
    }
    assert(is_word(seq!['o', 'u', 't'])) by {
        let w = seq!['o', 'u', 't'];
        assert forall|k: int| 0 <= k < 3 implies !is_whitespace_spec(#[trigger] w[k]) && w[k] != ':' by {
            assert(k == 0 || k == 1 || k == 2);
        }
    }
    lemma_classify_variable(seq!['o', 'u', 't', '1'], seq!['o', 'u', 't']);
    assert(seq!['o', 'u', 't', '1', ':', 'o', 'u', 't'] =~= seq!['o', 'u', 't', '1'] + seq![':'] + seq!['o', 'u', 't']);
    assert(scan_half(s, 29, 21, true) == scan_half(s, 30, 30, false));
    assert(scan_half(s, 30, 30, false) == scan_half(s, 31, 30, false));
    assert(scan_half(s, 31, 30, false) == scan_half(s, 33, 32, true));
    assert(scan_half(s, 33, 32, true) == scan_half(s, 34, 32, true));
    assert(scan_half(s, 34, 32, true) == scan_half(s, 35, 32, true));
    assert(scan_half(s, 35, 32, true) == scan_half(s, 36, 32, true));
    assert(scan_half(s, 36, 32, true) == scan_half(s, 37, 32, true));
    assert(scan_half(s, 37, 32, true) == scan_half(s, 38, 32, true));
    assert(scan_half(s, 38, 32, true) == scan_half(s, 39, 32, true));
}

proof fn lemma_swap_template_2()
    ensures
        scan_half("\n            const [{out1:out},{out2:out}] = [{value1:in},{value2:in}];\n            {inner}\n            "@, 39, 32, true) == scan_half("\n            const [{out1:out},{out2:out}] = [{value1:in},{value2:in}];\n            {inner}\n            "@, 52, 47, true),
{
    reveal_strlit("\n            const [{out1:out},{out2:out}] = [{value1:in},{value2:in}];\n            {inner}\n            ");
    let s = "\n            const [{out1:out},{out2:out}] = [{value1:in},{value2:in}];\n            {inner}\n            "@;
    assert(scan_half(s, 39, 32, true) == scan_half(s, 40, 32, true));
    assert(s.subrange(32, 40) =~= seq!['o', 'u', 't', '2', ':', 'o', 'u', 't']);
    assert(is_word(seq!['o', 'u', 't', '2'])) by {
        let w = seq!['o', 'u', 't', '2'];
        assert forall|k: int| 0 <= k < 4 implies !is_whitespace_spec(#[trigger] w[k]) && w[k] != ':' by {
            assert(k == 0 || k == 1 || k == 2 || k == 3);
        }
    }
    assert(is_word(seq!['o', 'u', 't'])) by {
        let w = seq!['o', 'u', 't'];
        assert forall|k: int| 0 <= k < 3 implies !is_whitespace_spec(#[trigger] w[k]) && w[k] != ':' by {
            assert(k == 0 || k == 1 || k == 2);
        }
    }
    lemma_classify_variable(seq!['o', 'u', 't', '2'], seq!['o', 'u', 't']);
    assert(seq!['o', 'u', 't', '2', ':', 'o', 'u', 't'] =~= seq!['o', 'u', 't', '2'] + seq![':'] + seq!['o', 'u', 't']);
    assert(scan_half(s, 40, 32, true) == scan_half(s, 41, 41, false));
    assert(scan_half(s, 41, 41, false) == scan_half(s, 42, 41, false));
    assert(scan_half(s, 42, 41, false) == scan_half(s, 43, 41, false));
    assert(scan_half(s, 43, 41, false) == scan_half(s, 44, 41, false));
    assert(scan_half(s, 44, 41, false) == scan_half(s, 45, 41, false));
    assert(scan_half(s, 45, 41, false) == scan_half(s, 46, 41, false));
    assert(scan_half(s, 46, 41, false) == scan_half(s, 48, 47, true));
    assert(scan_half(s, 48, 47, true) == scan_half(s, 49, 47, true));
    assert(scan_half(s, 49, 47, true) == scan_half(s, 50, 47, true));
    assert(scan_half(s, 50, 47, true) == scan_half(s, 51, 47, true));
    assert(scan_half(s, 51, 47, true) == scan_half(s, 52, 47, true));
}

proof fn lemma_swap_template_3()
    ensures
        scan_half("\n            const [{out1:out},{out2:out}] = [{value1:in},{value2:in}];\n            {inner}\n            "@, 52, 47, true) == scan_half("\n            const [{out1:out},{out2:out}] = [{value1:in},{value2:in}];\n            {inner}\n            "@, 65, 59, true),
{
    reveal_strlit("\n            const [{out1:out},{out2:out}] = [{value1:in},{value2:in}];\n            {inner}\n            ");
    let s = "\n            const [{out1:out},{out2:out}] = [{value1:in},{value2:in}];\n            {inner}\n            "@;
    assert(scan_half(s, 52, 47, true) == scan_half(s, 53, 47, true));
    assert(scan_half(s, 53, 47, true) == scan_half(s, 54, 47, true));
    assert(scan_half(s, 54, 47, true) == scan_half(s, 55, 47, true));
    assert(scan_half(s, 55, 47, true) == scan_half(s, 56, 47, true));
    assert(s.subrange(47, 56) =~= seq!['v', 'a', 'l', 'u', 'e', '1', ':', 'i', 'n']);
    assert(is_word(seq!['v', 'a', 'l', 'u', 'e', '1'])) by {
        let w = seq!['v', 'a', 'l', 'u', 'e', '1'];
        assert forall|k: int| 0 <= k < 6 implies !is_whitespace_spec(#[trigger] w[k]) && w[k] != ':' by {
            assert(k == 0 || k == 1 || k == 2 || k == 3 || k == 4 || k == 5);
        }
    }
    assert(is_word(seq!['i', 'n'])) by {
        let w = seq!['i', 'n'];
        assert forall|k: int| 0 <= k < 2 implies !is_whitespace_spec(#[trigger] w[k]) && w[k] != ':' by {
            assert(k == 0 || k == 1);
        }
    }
    lemma_classify_variable(seq!['v', 'a', 'l', 'u', 'e', '1'], seq!['i', 'n']);
    assert(seq!['v', 'a', 'l', 'u', 'e', '1', ':', 'i', 'n'] =~= seq!['v', 'a', 'l', 'u', 'e', '1'] + seq![':'] + seq!['i', 'n']);
    assert(scan_half(s, 56, 47, true) == scan_half(s, 57, 57, false));
    assert(scan_half(s, 57, 57, false) == scan_half(s, 58, 57, false));
    assert(scan_half(s, 58, 57, false) == scan_half(s, 60, 59, true));
    assert(scan_half(s, 60, 59, true) == scan_half(s, 61, 59, true));
    assert(scan_half(s, 61, 59, true) == scan_half(s, 62, 59, true));
    assert(scan_half(s, 62, 59, true) == scan_half(s, 63, 59, true));
    assert(scan_half(s, 63, 59, true) == scan_half(s, 64, 59, true));
    assert(scan_half(s, 64, 59, true) == scan_half(s, 65, 59, true));
}

proof fn lemma_swap_template_4()
    ensures
        scan_half("\n            const [{out1:out},{out2:out}] = [{value1:in},{value2:in}];\n            {inner}\n            "@, 65, 59, true) == scan_half("\n            const [{out1:out},{out2:out}] = [{value1:in},{value2:in}];\n            {inner}\n            "@, 90, 85, true),
{
    reveal_strlit("\n            const [{out1:out},{out2:out}] = [{value1:in},{value2:in}];\n            {inner}\n            ");
    let s = "\n            const [{out1:out},{out2:out}] = [{value1:in},{value2:in}];\n            {inner}\n            "@;
    assert(scan_half(s, 65, 59, true) == scan_half(s, 66, 59, true));
    assert(scan_half(s, 66, 59, true) == scan_half(s, 67, 59, true));
    assert(scan_half(s, 67, 59, true) == scan_half(s, 68, 59, true));
    assert(s.subrange(59, 68) =~= seq!['v', 'a', 'l', 'u', 'e', '2', ':', 'i', 'n']);
    assert(is_word(seq!['v', 'a', 'l', 'u', 'e', '2'])) by {
        let w = seq!['v', 'a', 'l', 'u', 'e', '2'];
        assert forall|k: int| 0 <= k < 6 implies !is_whitespace_spec(#[trigger] w[k]) && w[k] != ':' by {
            assert(k == 0 || k == 1 || k == 2 || k == 3 || k == 4 || k == 5);
        }
    }
    assert(is_word(seq!['i', 'n'])) by {
        let w = seq!['i', 'n'];
        assert forall|k: int| 0 <= k < 2 implies !is_whitespace_spec(#[trigger] w[k]) && w[k] != ':' by {
            assert(k == 0 || k == 1);
        }
    }
    lemma_classify_variable(seq!['v', 'a', 'l', 'u', 'e', '2'], seq!['i', 'n']);
    assert(seq!['v', 'a', 'l', 'u', 'e', '2', ':', 'i', 'n'] =~= seq!['v', 'a', 'l', 'u', 'e', '2'] + seq![':'] + seq!['i', 'n']);
    assert(scan_half(s, 68, 59, true) == scan_half(s, 69, 69, false));
    assert(scan_half(s, 69, 69, false) == scan_half(s, 70, 69, false));
    assert(scan_half(s, 70, 69, false) == scan_half(s, 71, 69, false));
    assert(skip_indents_spec(s, 72, 0) == (12nat, 84int)) by {
        assert(skip_indents_spec(s, 72, 0) == skip_indents_spec(s, 73, 1));
        assert(skip_indents_spec(s, 73, 1) == skip_indents_spec(s, 74, 2));
        assert(skip_indents_spec(s, 74, 2) == skip_indents_spec(s, 75, 3));
        assert(skip_indents_spec(s, 75, 3) == skip_indents_spec(s, 76, 4));
        assert(skip_indents_spec(s, 76, 4) == skip_indents_spec(s, 77, 5));
        assert(skip_indents_spec(s, 77, 5) == skip_indents_spec(s, 78, 6));
        assert(skip_indents_spec(s, 78, 6) == skip_indents_spec(s, 79, 7));
        assert(skip_indents_spec(s, 79, 7) == skip_indents_spec(s, 80, 8));
        assert(skip_indents_spec(s, 80, 8) == skip_indents_spec(s, 81, 9));
        assert(skip_indents_spec(s, 81, 9) == skip_indents_spec(s, 82, 10));
        assert(skip_indents_spec(s, 82, 10) == skip_indents_spec(s, 83, 11));
        assert(skip_indents_spec(s, 83, 11) == skip_indents_spec(s, 84, 12));
        assert(skip_indents_spec(s, 84, 12) == (12nat, 84int));
    }
    assert(scan_half(s, 71, 69, false) == scan_half(s, 84, 84, false));
    assert(scan_half(s, 84, 84, false) == scan_half(s, 86, 85, true));
    assert(scan_half(s, 86, 85, true) == scan_half(s, 87, 85, true));
    assert(scan_half(s, 87, 85, true) == scan_half(s, 88, 85, true));
    assert(scan_half(s, 88, 85, true) == scan_half(s, 89, 85, true));
    assert(scan_half(s, 89, 85, true) == scan_half(s, 90, 85, true));
}

proof fn lemma_swap_template_5()
    ensures
        scan_half("\n            const [{out1:out},{out2:out}] = [{value1:in},{value2:in}];\n            {inner}\n            "@, 90, 85, true) == Some(91int),
{
    reveal_strlit("\n            const [{out1:out},{out2:out}] = [{value1:in},{value2:in}];\n            {inner}\n            ");
    let s = "\n            const [{out1:out},{out2:out}] = [{value1:in},{value2:in}];\n            {inner}\n            "@;
    assert(s.subrange(85, 90) =~= seq!['i', 'n', 'n', 'e', 'r']);
    lemma_classify_inner();
    assert(seq!['i', 'n', 'n', 'e', 'r'] =~= inner_word());
    assert(scan_half(s, 90, 85, true) == Some(91int));
}

proof fn lemma_swap_template_6()
    ensures
        scan_half("\n            const [{out1:out},{out2:out}] = [{value1:in},{value2:in}];\n            {inner}\n            "@, 91, 91, false) == Some(104int),
{
    reveal_strlit("\n            const [{out1:out},{out2:out}] = [{value1:in},{value2:in}];\n            {inner}\n            ");
    let s = "\n            const [{out1:out},{out2:out}] = [{value1:in},{value2:in}];\n            {inner}\n            "@;
    assert(skip_indents_spec(s, 92, 0) == (12nat, 104int)) by {
        assert(skip_indents_spec(s, 92, 0) == skip_indents_spec(s, 93, 1));
        assert(skip_indents_spec(s, 93, 1) == skip_indents_spec(s, 94, 2));
        assert(skip_indents_spec(s, 94, 2) == skip_indents_spec(s, 95, 3));
        assert(skip_indents_spec(s, 95, 3) == skip_indents_spec(s, 96, 4));
        assert(skip_indents_spec(s, 96, 4) == skip_indents_spec(s, 97, 5));
        assert(skip_indents_spec(s, 97, 5) == skip_indents_spec(s, 98, 6));
        assert(skip_indents_spec(s, 98, 6) == skip_indents_spec(s, 99, 7));
        assert(skip_indents_spec(s, 99, 7) == skip_indents_spec(s, 100, 8));
        assert(skip_indents_spec(s, 100, 8) == skip_indents_spec(s, 101, 9));
        assert(skip_indents_spec(s, 101, 9) == skip_indents_spec(s, 102, 10));
        assert(skip_indents_spec(s, 102, 10) == skip_indents_spec(s, 103, 11));
        assert(skip_indents_spec(s, 103, 11) == skip_indents_spec(s, 104, 12));
        assert(skip_indents_spec(s, 104, 12) == (12nat, 104int));
    }
    assert(scan_half(s, 91, 91, false) == scan_half(s, 104, 104, false));
    assert(scan_half(s, 104, 104, false) == Some(104int));
}

/// The `swap` builtin builds from its templates.
proof fn lemma_swap_builds()
    ensures
        build_builtin(builtin_sources_spec()[11]) is Ok,
{
    let b = builtin_sources_spec()[11];
    lemma_swap_template();
    lemma_template_parses(b.template);
    assert(b.brackets.len() == 0);
}

/// The template of the `over` builtin parses.
proof fn lemma_over_template()
    ensures
        template_parses("\n            // {value1:in}\n            const [{out1:out},{out2:out},{out3:out}] = [{value2:in},{value1:in},{value2:in}];\n            {inner}\n            "@),
{
    reveal_strlit("\n            // {value1:in}\n            const [{out1:out},{out2:out},{out3:out}] = [{value2:in},{value1:in},{value2:in}];\n            {inner}\n            ");
    let s = "\n            // {value1:in}\n            const [{out1:out},{out2:out},{out3:out}] = [{value2:in},{value1:in},{value2:in}];\n            {inner}\n            "@;
    assert(s.len() == 154);
    assert(skip_indents_spec(s, 0, 0) == (12nat, 13int)) by {
        assert(skip_indents_spec(s, 0, 0) == skip_indents_spec(s, 1, 0));
        assert(skip_indents_spec(s, 1, 0) == skip_indents_spec(s, 2, 1));
        assert(skip_indents_spec(s, 2, 1) == skip_indents_spec(s, 3, 2));
        assert(skip_indents_spec(s, 3, 2) == skip_indents_spec(s, 4, 3));
        assert(skip_indents_spec(s, 4, 3) == skip_indents_spec(s, 5, 4));
        assert(skip_indents_spec(s, 5, 4) == skip_indents_spec(s, 6, 5));
        assert(skip_indents_spec(s, 6, 5) == skip_indents_spec(s, 7, 6));
        assert(skip_indents_spec(s, 7, 6) == skip_indents_spec(s, 8, 7));
        assert(skip_indents_spec(s, 8, 7) == skip_indents_spec(s, 9, 8));
        assert(skip_indents_spec(s, 9, 8) == skip_indents_spec(s, 10, 9));
        assert(skip_indents_spec(s, 10, 9) == skip_indents_spec(s, 11, 10));
        assert(skip_indents_spec(s, 11, 10) == skip_indents_spec(s, 12, 11));
        assert(skip_indents_spec(s, 12, 11) == skip_indents_spec(s, 13, 12));
        assert(skip_indents_spec(s, 13, 12) == (12nat, 13int));
    }
    lemma_over_template_0();
    lemma_over_template_1();
    lemma_over_template_2();
    lemma_over_template_3();
    lemma_over_template_4();
    lemma_over_template_5();
    lemma_over_template_6();
    lemma_over_template_7();
    lemma_over_template_8();
}

proof fn lemma_over_template_0()
    ensures
        scan_half("\n            // {value1:in}\n            const [{out1:out},{out2:out},{out3:out}] = [{value2:in},{value1:in},{value2:in}];\n            {inner}\n            "@, 13, 13, false) == scan_half("\n            // {value1:in}\n            const [{out1:out},{out2:out},{out3:out}] = [{value2:in},{value1:in},{value2:in}];\n            {inner}\n            "@, 26, 17, true),
{
    reveal_strlit("\n            // {value1:in}\n            const [{out1:out},{out2:out},{out3:out}] = [{value2:in},{value1:in},{value2:in}];\n            {inner}\n            ");
    let s = "\n            // {value1:in}\n            const [{out1:out},{out2:out},{out3:out}] = [{value2:in},{value1:in},{value2:in}];\n            {inner}\n            "@;
    assert(scan_half(s, 13, 13, false) == scan_half(s, 14, 13, false));
    assert(scan_half(s, 14, 13, false) == scan_half(s, 15, 13, false));
    assert(scan_half(s, 15, 13, false) == scan_half(s, 16, 13, false));
    assert(scan_half(s, 16, 13, false) == scan_half(s, 18, 17, true));
    assert(scan_half(s, 18, 17, true) == scan_half(s, 19, 17, true));
    assert(scan_half(s, 19, 17, true) == scan_half(s, 20, 17, true));
    assert(scan_half(s, 20, 17, true) == scan_half(s, 21, 17, true));
    assert(scan_half(s, 21, 17, true) == scan_half(s, 22, 17, true));
    assert(scan_half(s, 22, 17, true) == scan_half(s, 23, 17, true));
    assert(scan_half(s, 23, 17, true) == scan_half(s, 24, 17, true));
    assert(scan_half(s, 24, 17, true) == scan_half(s, 25, 17, true));
    assert(scan_half(s, 25, 17, true) == scan_half(s, 26, 17, true));
}

proof fn lemma_over_template_1()
    ensures
        scan_half("\n            // {value1:in}\n            const [{out1:out},{out2:out},{out3:out}] = [{value2:in},{value1:in},{value2:in}];\n            {inner}\n            "@, 26, 17, true) == scan_half("\n            // {value1:in}\n            const [{out1:out},{out2:out},{out3:out}] = [{value2:in},{value1:in},{value2:in}];\n            {inner}\n            "@, 51, 48, true),
{
    reveal_strlit("\n            // {value1:in}\n            const [{out1:out},{out2:out},{out3:out}] = [{value2:in},{value1:in},{value2:in}];\n            {inner}\n            ");
    let s = "\n            // {value1:in}\n            const [{out1:out},{out2:out},{out3:out}] = [{value2:in},{value1:in},{value2:in}];\n            {inner}\n            "@;
    assert(s.subrange(17, 26) =~= seq!['v', 'a', 'l', 'u', 'e', '1', ':', 'i', 'n']);
    assert(is_word(seq!['v', 'a', 'l', 'u', 'e', '1'])) by {
        let w = seq!['v', 'a', 'l', 'u', 'e', '1'];
        assert forall|k: int| 0 <= k < 6 implies !is_whitespace_spec(#[trigger] w[k]) && w[k] != ':' by {
            assert(k == 0 || k == 1 || k == 2 || k == 3 || k == 4 || k == 5);
        }
    }
    assert(is_word(seq!['i', 'n'])) by {
        let w = seq!['i', 'n'];
        assert forall|k: int| 0 <= k < 2 implies !is_whitespace_spec(#[trigger] w[k]) && w[k] != ':' by {
            assert(k == 0 || k == 1);
        }
    }
    lemma_classify_variable(seq!['v', 'a', 'l', 'u', 'e', '1'], seq!['i', 'n']);
    assert(seq!['v', 'a', 'l', 'u', 'e', '1', ':', 'i', 'n'] =~= seq!['v', 'a', 'l', 'u', 'e', '1'] + seq![':'] + seq!['i', 'n']);
    assert(scan_half(s, 26, 17, true) == scan_half(s, 27, 27, false));
    assert(skip_indents_spec(s, 28, 0) == (12nat, 40int)) by {
        assert(skip_indents_spec(s, 28, 0) == skip_indents_spec(s, 29, 1));
        assert(skip_indents_spec(s, 29, 1) == skip_indents_spec(s, 30, 2));
        assert(skip_indents_spec(s, 30, 2) == skip_indents_spec(s, 31, 3));
        assert(skip_indents_spec(s, 31, 3) == skip_indents_spec(s, 32, 4));
        assert(skip_indents_spec(s, 32, 4) == skip_indents_spec(s, 33, 5));
        assert(skip_indents_spec(s, 33, 5) == skip_indents_spec(s, 34, 6));
        assert(skip_indents_spec(s, 34, 6) == skip_indents_spec(s, 35, 7));
        assert(skip_indents_spec(s, 35, 7) == skip_indents_spec(s, 36, 8));
        assert(skip_indents_spec(s, 36, 8) == skip_indents_spec(s, 37, 9));
        assert(skip_indents_spec(s, 37, 9) == skip_indents_spec(s, 38, 10));
        assert(skip_indents_spec(s, 38, 10) == skip_indents_spec(s, 39, 11));
        assert(skip_indents_spec(s, 39, 11) == skip_indents_spec(s, 40, 12));
        assert(skip_indents_spec(s, 40, 12) == (12nat, 40int));
    }
    assert(scan_half(s, 27, 27, false) == scan_half(s, 40, 40, false));
    assert(scan_half(s, 40, 40, false) == scan_half(s, 41, 40, false));
    assert(scan_half(s, 41, 40, false) == scan_half(s, 42, 40, false));
    assert(scan_half(s, 42, 40, false) == scan_half(s, 43, 40, false));
    assert(scan_half(s, 43, 40, false) == scan_half(s, 44, 40, false));
    assert(scan_half(s, 44, 40, false) == scan_half(s, 45, 40, false));
    assert(scan_half(s, 45, 40, false) == scan_half(s, 46, 40, false));
    assert(scan_half(s, 46, 40, false) == scan_half(s, 47, 40, false));
    assert(scan_half(s, 47, 40, false) == scan_half(s, 49, 48, true));
    assert(scan_half(s, 49, 48, true) == scan_half(s, 50, 48, true));
    assert(scan_half(s, 50, 48, true) == scan_half(s, 51, 48, true));
}

proof fn lemma_over_template_2()
    ensures
        scan_half("\n            // {value1:in}\n            const [{out1:out},{out2:out},{out3:out}] = [{value2:in},{value1:in},{value2:in}];\n            {inner}\n            "@, 51, 48, true) == scan_half("\n            // {value1:in}\n            const [{out1:out},{out2:out},{out3:out}] = [{value2:in},{value1:in},{value2:in}];\n            {inner}\n            "@, 64, 59, true),
{
    reveal_strlit("\n            // {value1:in}\n            const [{out1:out},{out2:out},{out3:out}] = [{value2:in},{value1:in},{value2:in}];\n            {inner}\n            ");
    let s = "\n            // {value1:in}\n            const [{out1:out},{out2:out},{out3:out}] = [{value2:in},{value1:in},{value2:in}];\n            {inner}\n            "@;
    assert(scan_half(s, 51, 48, true) == scan_half(s, 52, 48, true));
    assert(scan_half(s, 52, 48, true) == scan_half(s, 53, 48, true));
    assert(scan_half(s, 53, 48, true) == scan_half(s, 54, 48, true));
    assert(scan_half(s, 54, 48, true) == scan_half(s, 55, 48, true));
    assert(scan_half(s, 55, 48, true) == scan_half(s, 56, 48, true));
    assert(s.subrange(48, 56) =~= seq!['o', 'u', 't', '1', ':', 'o', 'u', 't']);
    assert(is_word(seq!['o', 'u', 't', '1'])) by {
        let w = seq!['o', 'u', 't', '1'];
        assert forall|k: int| 0 <= k < 4 implies !is_whitespace_spec(#[trigger] w[k]) && w[k] != ':' by {
            assert(k == 0 || k == 1 || k == 2 || k == 3);
        }
    }
    assert(is_word(seq!['o', 'u', 't'])) by {
        let w = seq!['o', 'u', 't'];
        assert forall|k: int| 0 <= k < 3 implies !is_whitespace_spec(#[trigger] w[k]) && w[k] != ':' by {
            assert(k == 0 || k == 1 || k == 2);
        }
    }
    lemma_classify_variable(seq!['o', 'u', 't', '1'], seq!['o', 'u', 't']);
    assert(seq!['o', 'u', 't', '1', ':', 'o', 'u', 't'] =~= seq!['o', 'u', 't', '1'] + seq![':'] + seq!['o', 'u', 't']);
    assert(scan_half(s, 56, 48, true) == scan_half(s, 57, 57, false));
    assert(scan_half(s, 57, 57, false) == scan_half(s, 58, 57, false));
    assert(scan_half(s, 58, 57, false) == scan_half(s, 60, 59, true));
    assert(scan_half(s, 60, 59, true) == scan_half(s, 61, 59, true));
    assert(scan_half(s, 61, 59, true) == scan_half(s, 62, 59, true));
    assert(scan_half(s, 62, 59, true) == scan_half(s, 63, 59, true));
    assert(scan_half(s, 63, 59, true) == scan_half(s, 64, 59, true));
}

proof fn lemma_over_template_3()
    ensures
        scan_half("\n            // {value1:in}\n            const [{out1:out},{out2:out},{out3:out}] = [{value2:in},{value1:in},{value2:in}];\n            {inner}\n            "@, 64, 59, true) == scan_half("\n            // {value1:in}\n            const [{out1:out},{out2:out},{out3:out}] = [{value2:in},{value1:in},{value2:in}];\n            {inner}\n            "@, 77, 70, true),
{
    reveal_strlit("\n            // {value1:in}\n            const [{out1:out},{out2:out},{out3:out}] = [{value2:in},{value1:in},{value2:in}];\n            {inner}\n            ");
    let s = "\n            // {value1:in}\n            const [{out1:out},{out2:out},{out3:out}] = [{value2:in},{value1:in},{value2:in}];\n            {inner}\n            "@;
    assert(scan_half(s, 64, 59, true) == scan_half(s, 65, 59, true));
    assert(scan_half(s, 65, 59, true) == scan_half(s, 66, 59, true));
    assert(scan_half(s, 66, 59, true) == scan_half(s, 67, 59, true));
    assert(s.subrange(59, 67) =~= seq!['o', 'u', 't', '2', ':', 'o', 'u', 't']);
    assert(is_word(seq!['o', 'u', 't', '2'])) by {
        let w = seq!['o', 'u', 't', '2'];
        assert forall|k: int| 0 <= k < 4 implies !is_whitespace_spec(#[trigger] w[k]) && w[k] != ':' by {
            assert(k == 0 || k == 1 || k == 2 || k == 3);
        }
    }
    assert(is_word(seq!['o', 'u', 't'])) by {
        let w = seq!['o', 'u', 't'];
        assert forall|k: int| 0 <= k < 3 implies !is_whitespace_spec(#[trigger] w[k]) && w[k] != ':' by {
            assert(k == 0 || k == 1 || k == 2);
        }
    }
    lemma_classify_variable(seq!['o', 'u', 't', '2'], seq!['o', 'u', 't']);
    assert(seq!['o', 'u', 't', '2', ':', 'o', 'u', 't'] =~= seq!['o', 'u', 't', '2'] + seq![':'] + seq!['o', 'u', 't']);
    assert(scan_half(s, 67, 59, true) == scan_half(s, 68, 68, false));
    assert(scan_half(s, 68, 68, false) == scan_half(s, 69, 68, false));
    assert(scan_half(s, 69, 68, false) == scan_half(s, 71, 70, true));
    assert(scan_half(s, 71, 70, true) == scan_half(s, 72, 70, true));
    assert(scan_half(s, 72, 70, true) == scan_half(s, 73, 70, true));
    assert(scan_half(s, 73, 70, true) == scan_half(s, 74, 70, true));
    assert(scan_half(s, 74, 70, true) == scan_half(s, 75, 70, true));
    assert(scan_half(s, 75, 70, true) == scan_half(s, 76, 70, true));
    assert(scan_half(s, 76, 70, true) == scan_half(s, 77, 70, true));
}

proof fn lemma_over_template_4()
    ensures
        scan_half("\n            // {value1:in}\n            const [{out1:out},{out2:out},{out3:out}] = [{value2:in},{value1:in},{value2:in}];\n            {inner}\n            "@, 77, 70, true) == scan_half("\n            // {value1:in}\n            const [{out1:out},{out2:out},{out3:out}] = [{value2:in},{value1:in},{value2:in}];\n            {inner}\n            "@, 90, 85, true),
{
    reveal_strlit("\n            // {value1:in}\n            const [{out1:out},{out2:out},{out3:out}] = [{value2:in},{value1:in},{value2:in}];\n            {inner}\n            ");
    let s = "\n            // {value1:in}\n            const [{out1:out},{out2:out},{out3:out}] = [{value2:in},{value1:in},{value2:in}];\n            {inner}\n            "@;
    assert(scan_half(s, 77, 70, true) == scan_half(s, 78, 70, true));
    assert(s.subrange(70, 78) =~= seq!['o', 'u', 't', '3', ':', 'o', 'u', 't']);
    assert(is_word(seq!['o', 'u', 't', '3'])) by {
        let w = seq!['o', 'u', 't', '3'];
        assert forall|k: int| 0 <= k < 4 implies !is_whitespace_spec(#[trigger] w[k]) && w[k] != ':' by {
            assert(k == 0 || k == 1 || k == 2 || k == 3);
        }
    }
    assert(is_word(seq!['o', 'u', 't'])) by {
        let w = seq!['o', 'u', 't'];
        assert forall|k: int| 0 <= k < 3 implies !is_whitespace_spec(#[trigger] w[k]) && w[k] != ':' by {
            assert(k == 0 || k == 1 || k == 2);
        }
    }
    lemma_classify_variable(seq!['o', 'u', 't', '3'], seq!['o', 'u', 't']);
    assert(seq!['o', 'u', 't', '3', ':', 'o', 'u', 't'] =~= seq!['o', 'u', 't', '3'] + seq![':'] + seq!['o', 'u', 't']);
    assert(scan_half(s, 78, 70, true) == scan_half(s, 79, 79, false));
    assert(scan_half(s, 79, 79, false) == scan_half(s, 80, 79, false));
    assert(scan_half(s, 80, 79, false) == scan_half(s, 81, 79, false));
    assert(scan_half(s, 81, 79, false) == scan_half(s, 82, 79, false));
    assert(scan_half(s, 82, 79, false) == scan_half(s, 83, 79, false));
    assert(scan_half(s, 83, 79, false) == scan_half(s, 84, 79, false));
    assert(scan_half(s, 84, 79, false) == scan_half(s, 86, 85, true));
    assert(scan_half(s, 86, 85, true) == scan_half(s, 87, 85, true));
    assert(scan_half(s, 87, 85, true) == scan_half(s, 88, 85, true));
    assert(scan_half(s, 88, 85, true) == scan_half(s, 89, 85, true));
    assert(scan_half(s, 89, 85, true) == scan_half(s, 90, 85, true));
}

proof fn lemma_over_template_5()
    ensures
        scan_half("\n            // {value1:in}\n            const [{out1:out},{out2:out},{out3:out}] = [{value2:in},{value1:in},{value2:in}];\n            {inner}\n            "@, 90, 85, true) == scan_half("\n            // {value1:in}\n            const [{out1:out},{out2:out},{out3:out}] = [{value2:in},{value1:in},{value2:in}];\n            {inner}\n            "@, 103, 97, true),
{
    reveal_strlit("\n            // {value1:in}\n            const [{out1:out},{out2:out},{out3:out}] = [{value2:in},{value1:in},{value2:in}];\n            {inner}\n            ");
    let s = "\n            // {value1:in}\n            const [{out1:out},{out2:out},{out3:out}] = [{value2:in},{value1:in},{value2:in}];\n            {inner}\n            "@;
    assert(scan_half(s, 90, 85, true) == scan_half(s, 91, 85, true));
    assert(scan_half(s, 91, 85, true) == scan_half(s, 92, 85, true));
    assert(scan_half(s, 92, 85, true) == scan_half(s, 93, 85, true));
    assert(scan_half(s, 93, 85, true) == scan_half(s, 94, 85, true));
    assert(s.subrange(85, 94) =~= seq!['v', 'a', 'l', 'u', 'e', '2', ':', 'i', 'n']);
    assert(is_word(seq!['v', 'a', 'l', 'u', 'e', '2'])) by {
        let w = seq!['v', 'a', 'l', 'u', 'e', '2'];
        assert forall|k: int| 0 <= k < 6 implies !is_whitespace_spec(#[trigger] w[k]) && w[k] != ':' by {
            assert(k == 0 || k == 1 || k == 2 || k == 3 || k == 4 || k == 5);
        }
    }
    assert(is_word(seq!['i', 'n'])) by {
        let w = seq!['i', 'n'];
        assert forall|k: int| 0 <= k < 2 implies !is_whitespace_spec(#[trigger] w[k]) && w[k] != ':' by {
            assert(k == 0 || k == 1);
        }
    }
    lemma_classify_variable(seq!['v', 'a', 'l', 'u', 'e', '2'], seq!['i', 'n']);
    assert(seq!['v', 'a', 'l', 'u', 'e', '2', ':', 'i', 'n'] =~= seq!['v', 'a', 'l', 'u', 'e', '2'] + seq![':'] + seq!['i', 'n']);
    assert(scan_half(s, 94, 85, true) == scan_half(s, 95, 95, false));
    assert(scan_half(s, 95, 95, false) == scan_half(s, 96, 95, false));
    assert(scan_half(s, 96, 95, false) == scan_half(s, 98, 97, true));
    assert(scan_half(s, 98, 97, true) == scan_half(s, 99, 97, true));
    assert(scan_half(s, 99, 97, true) == scan_half(s, 100, 97, true));
    assert(scan_half(s, 100, 97, true) == scan_half(s, 101, 97, true));
    assert(scan_half(s, 101, 97, true) == scan_half(s, 102, 97, true));
    assert(scan_half(s, 102, 97, true) == scan_half(s, 103, 97, true));
}

proof fn lemma_over_template_6()
    ensures
        scan_half("\n            // {value1:in}\n            const [{out1:out},{out2:out},{out3:out}] = [{value2:in},{value1:in},{value2:in}];\n            {inner}\n            "@, 103, 97, true) == scan_half("\n            // {value1:in}\n            const [{out1:out},{out2:out},{out3:out}] = [{value2:in},{value1:in},{value2:in}];\n            {inner}\n            "@, 116, 109, true),
{
    reveal_strlit("\n            // {value1:in}\n            const [{out1:out},{out2:out},{out3:out}] = [{value2:in},{value1:in},{value2:in}];\n            {inner}\n            ");
    let s = "\n            // {value1:in}\n            const [{out1:out},{out2:out},{out3:out}] = [{value2:in},{value1:in},{value2:in}];\n            {inner}\n            "@;
    assert(scan_half(s, 103, 97, true) == scan_half(s, 104, 97, true));
    assert(scan_half(s, 104, 97, true) == scan_half(s, 105, 97, true));
    assert(scan_half(s, 105, 97, true) == scan_half(s, 106, 97, true));
    assert(s.subrange(97, 106) =~= seq!['v', 'a', 'l', 'u', 'e', '1', ':', 'i', 'n']);
    assert(is_word(seq!['v', 'a', 'l', 'u', 'e', '1'])) by {
        let w = seq!['v', 'a', 'l', 'u', 'e', '1'];
        assert forall|k: int| 0 <= k < 6 implies !is_whitespace_spec(#[trigger] w[k]) && w[k] != ':' by {
            assert(k == 0 || k == 1 || k == 2 || k == 3 || k == 4 || k == 5);
        }
    }
    assert(is_word(seq!['i', 'n'])) by {
        let w = seq!['i', 'n'];
        assert forall|k: int| 0 <= k < 2 implies !is_whitespace_spec(#[trigger] w[k]) && w[k] != ':' by {
            assert(k == 0 || k == 1);
        }
    }
    lemma_classify_variable(seq!['v', 'a', 'l', 'u', 'e', '1'], seq!['i', 'n']);
    assert(seq!['v', 'a', 'l', 'u', 'e', '1', ':', 'i', 'n'] =~= seq!['v', 'a', 'l', 'u', 'e', '1'] + seq![':'] + seq!['i', 'n']);
    assert(scan_half(s, 106, 97, true) == scan_half(s, 107, 107, false));
    assert(scan_half(s, 107, 107, false) == scan_half(s, 108, 107, false));
    assert(scan_half(s, 108, 107, false) == scan_half(s, 110, 109, true));
    assert(scan_half(s, 110, 109, true) == scan_half(s, 111, 109, true));
    assert(scan_half(s, 111, 109, true) == scan_half(s, 112, 109, true));
    assert(scan_half(s, 112, 109, true) == scan_half(s, 113, 109, true));
    assert(scan_half(s, 113, 109, true) == scan_half(s, 114, 109, true));
    assert(scan_half(s, 114, 109, true) == scan_half(s, 115, 109, true));
    assert(scan_half(s, 115, 109, true) == scan_half(s, 116, 109, true));
}

proof fn lemma_over_template_7()
    ensures
        scan_half("\n            // {value1:in}\n            const [{out1:out},{out2:out},{out3:out}] = [{value2:in},{value1:in},{value2:in}];\n            {inner}\n            "@, 116, 109, true) == Some(141int),
{
    reveal_strlit("\n            // {value1:in}\n            const [{out1:out},{out2:out},{out3:out}] = [{value2:in},{value1:in},{value2:in}];\n            {inner}\n            ");
    let s = "\n            // {value1:in}\n            const [{out1:out},{out2:out},{out3:out}] = [{value2:in},{value1:in},{value2:in}];\n            {inner}\n            "@;
    assert(scan_half(s, 116, 109, true) == scan_half(s, 117, 109, true));
    assert(scan_half(s, 117, 109, true) == scan_half(s, 118, 109, true));
    assert(s.subrange(109, 118) =~= seq!['v', 'a', 'l', 'u', 'e', '2', ':', 'i', 'n']);
    assert(is_word(seq!['v', 'a', 'l', 'u', 'e', '2'])) by {
        let w = seq!['v', 'a', 'l', 'u', 'e', '2'];
        assert forall|k: int| 0 <= k < 6 implies !is_whitespace_spec(#[trigger] w[k]) && w[k] != ':' by {
            assert(k == 0 || k == 1 || k == 2 || k == 3 || k == 4 || k == 5);
        }
    }
    assert(is_word(seq!['i', 'n'])) by {
        let w = seq!['i', 'n'];
        assert forall|k: int| 0 <= k < 2 implies !is_whitespace_spec(#[trigger] w[k]) && w[k] != ':' by {
            assert(k == 0 || k == 1);
        }
    }
    lemma_classify_variable(seq!['v', 'a', 'l', 'u', 'e', '2'], seq!['i', 'n']);
    assert(seq!['v', 'a', 'l', 'u', 'e', '2', ':', 'i', 'n'] =~= seq!['v', 'a', 'l', 'u', 'e', '2'] + seq![':'] + seq!['i', 'n']);
    assert(scan_half(s, 118, 109, true) == scan_half(s, 119, 119, false));
    assert(scan_half(s, 119, 119, false) == scan_half(s, 120, 119, false));
    assert(scan_half(s, 120, 119, false) == scan_half(s, 121, 119, false));
    assert(skip_indents_spec(s, 122, 0) == (12nat, 134int)) by {
        assert(skip_indents_spec(s, 122, 0) == skip_indents_spec(s, 123, 1));
        assert(skip_indents_spec(s, 123, 1) == skip_indents_spec(s, 124, 2));
        assert(skip_indents_spec(s, 124, 2) == skip_indents_spec(s, 125, 3));
        assert(skip_indents_spec(s, 125, 3) == skip_indents_spec(s, 126, 4));
        assert(skip_indents_spec(s, 126, 4) == skip_indents_spec(s, 127, 5));
        assert(skip_indents_spec(s, 127, 5) == skip_indents_spec(s, 128, 6));
        assert(skip_indents_spec(s, 128, 6) == skip_indents_spec(s, 129, 7));
        assert(skip_indents_spec(s, 129, 7) == skip_indents_spec(s, 130, 8));
        assert(skip_indents_spec(s, 130, 8) == skip_indents_spec(s, 131, 9));
        assert(skip_indents_spec(s, 131, 9) == skip_indents_spec(s, 132, 10));
        assert(skip_indents_spec(s, 132, 10) == skip_indents_spec(s, 133, 11));
        assert(skip_indents_spec(s, 133, 11) == skip_indents_spec(s, 134, 12));
        assert(skip_indents_spec(s, 134, 12) == (12nat, 134int));
    }
    assert(scan_half(s, 121, 119, false) == scan_half(s, 134, 134, false));
    assert(scan_half(s, 134, 134, false) == scan_half(s, 136, 135, true));
    assert(scan_half(s, 136, 135, true) == scan_half(s, 137, 135, true));
    assert(scan_half(s, 137, 135, true) == scan_half(s, 138, 135, true));
    assert(scan_half(s, 138, 135, true) == scan_half(s, 139, 135, true));
    assert(scan_half(s, 139, 135, true) == scan_half(s, 140, 135, true));
    assert(s.subrange(135, 140) =~= seq!['i', 'n', 'n', 'e', 'r']);
    lemma_classify_inner();
    assert(seq!['i', 'n', 'n', 'e', 'r'] =~= inner_word());
    assert(scan_half(s, 140, 135, true) == Some(141int));
}

proof fn lemma_over_template_8()
    ensures
        scan_half("\n            // {value1:in}\n            const [{out1:out},{out2:out},{out3:out}] = [{value2:in},{value1:in},{value2:in}];\n            {inner}\n            "@, 141, 141, false) == Some(154int),
{
    reveal_strlit("\n            // {value1:in}\n            const [{out1:out},{out2:out},{out3:out}] = [{value2:in},{value1:in},{value2:in}];\n            {inner}\n            ");
    let s = "\n            // {value1:in}\n            const [{out1:out},{out2:out},{out3:out}] = [{value2:in},{value1:in},{value2:in}];\n            {inner}\n            "@;
    assert(skip_indents_spec(s, 142, 0) == (12nat, 154int)) by {
        assert(skip_indents_spec(s, 142, 0) == skip_indents_spec(s, 143, 1));
        assert(skip_indents_spec(s, 143, 1) == skip_indents_spec(s, 144, 2));
        assert(skip_indents_spec(s, 144, 2) == skip_indents_spec(s, 145, 3));
        assert(skip_indents_spec(s, 145, 3) == skip_indents_spec(s, 146, 4));
        assert(skip_indents_spec(s, 146, 4) == skip_indents_spec(s, 147, 5));
        assert(skip_indents_spec(s, 147, 5) == skip_indents_spec(s, 148, 6));
        assert(skip_indents_spec(s, 148, 6) == skip_indents_spec(s, 149, 7));
        assert(skip_indents_spec(s, 149, 7) == skip_indents_spec(s, 150, 8));
        assert(skip_indents_spec(s, 150, 8) == skip_indents_spec(s, 151, 9));
        assert(skip_indents_spec(s, 151, 9) == skip_indents_spec(s, 152, 10));
        assert(skip_indents_spec(s, 152, 10) == skip_indents_spec(s, 153, 11));
        assert(skip_indents_spec(s, 153, 11) == skip_indents_spec(s, 154, 12));
        assert(skip_indents_spec(s, 154, 12) == (12nat, 154int));
    }
    assert(scan_half(s, 141, 141, false) == scan_half(s, 154, 154, false));
    assert(scan_half(s, 154, 154, false) == Some(154int));
}

/// The `over` builtin builds from its templates.
proof fn lemma_over_builds()
    ensures
        build_builtin(builtin_sources_spec()[12]) is Ok,
{
    let b = builtin_sources_spec()[12];
    lemma_over_template();
    lemma_template_parses(b.template);
    assert(b.brackets.len() == 0);
}

/// The text of a bracket handler's output handler, if it has one.
spec fn handler_text(b: BracketSourceModel) -> Seq<char> {
    match b.handler {
        Some((t, _)) => t,
        None => Seq::empty(),
    }
}

proof fn lemma_build_brackets_ok(bs: Seq<BracketSourceModel>)
    requires
        forall|i: int| 0 <= i < bs.len() ==> #[trigger] build_bracket(bs[i]) is Ok,
    ensures
        build_brackets(bs) is Ok,
    decreases bs.len(),
{
    if bs.len() > 0 {
        let init = bs.drop_last();
        assert forall|i: int| 0 <= i < init.len() implies #[trigger] build_bracket(init[i]) is Ok by {
            assert(init[i] == bs[i]);
        }
        lemma_build_brackets_ok(init);
        assert(build_bracket(bs[bs.len() - 1]) is Ok);
    }
}

proof fn lemma_build_all_ok(bs: Seq<BuiltinSourceModel>)
    requires
        forall|i: int| 0 <= i < bs.len() ==> #[trigger] build_builtin(bs[i]) is Ok,
    ensures
        build_all(bs) is Ok,
    decreases bs.len(),
{
    if bs.len() > 0 {
        let init = bs.drop_last();
        assert forall|i: int| 0 <= i < init.len() implies #[trigger] build_builtin(init[i]) is Ok by {
            assert(init[i] == bs[i]);
        }
        lemma_build_all_ok(init);
        assert(build_builtin(bs[bs.len() - 1]) is Ok);
    }
}

/// The table of builtins always builds: every template of every builtin
/// parses.
pub proof fn lemma_builtins_build()
    ensures
        build_all(builtin_sources_spec()) is Ok,
{
    let bs = builtin_sources_spec();
    assert(bs.len() == 13);
    assert forall|i: int| 0 <= i < bs.len() implies #[trigger] build_builtin(bs[i]) is Ok by {

        if i == 0 {
            lemma_group_builds();
        } else if i == 1 {
            lemma_array_builds();
        } else if i == 2 {
            lemma_conditional_builds();
        } else if i == 3 {
            lemma_range_builds();
        } else if i == 4 {
            lemma_add_builds();
        } else if i == 5 {
            lemma_sub_builds();
        } else if i == 6 {
            lemma_mul_builds();
        } else if i == 7 {
            lemma_div_builds();
        } else if i == 8 {
            lemma_eq_builds();
        } else if i == 9 {
            lemma_iter_builds();
        } else if i == 10 {
            lemma_dup_builds();
        } else if i == 11 {
            lemma_swap_builds();
        } else if i == 12 {
            lemma_over_builds();
        }
    }
    lemma_build_all_ok(bs);
}

} // verus!
