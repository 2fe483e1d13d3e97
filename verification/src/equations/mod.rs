pub mod cardano;
pub mod cubic;
pub mod quadratic;

pub use cubic::cubic_solve;
pub use cubic::CubicFormula;
pub use cubic::CubicSolution;
pub use quadratic::quadratic_solve;
pub use quadratic::QuadraticFormula;
pub use quadratic::QuadraticSolution;
