use fee_contracts::discount::{
    func_issue_192, func_issue_196, func_issue_199, func_issue_201, func_issue_202,
    func_issue_205, func_issue_211, func_issue_214, func_issue_216,
};
use fee_contracts::fee::{
    func_issue_189, func_issue_190, func_issue_198, func_issue_203, func_issue_204,
    func_issue_206, func_issue_207, func_issue_210, func_issue_212,
};

#[test]
fn feature_markers_do_nothing() {
    func_issue_189();
    func_issue_190();
    func_issue_192();
    func_issue_196();
    func_issue_198();
    func_issue_199();
    func_issue_201();
    func_issue_202();
    func_issue_203();
    func_issue_204();
    func_issue_205();
    func_issue_206();
    func_issue_207();
    func_issue_210();
    func_issue_211();
    func_issue_212();
    func_issue_214();
    func_issue_216();
}
