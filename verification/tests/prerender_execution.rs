use rust_engine::app::App;
use rust_engine::registry::DiContainer;
use rust_engine::schedule::{Priority, Stage, System};
use rust_engine::world::EntityStore;

#[derive(Debug, Clone, Copy, PartialEq, Eq)]
enum TestSystem {
    PrerenderSystem,
    RenderSystem,
}

impl System for TestSystem {
    fn run(&self, di: &mut DiContainer, _world: &mut EntityStore) {
        let label = match self {
            TestSystem::PrerenderSystem => "PreRender",
            TestSystem::RenderSystem => "Render",
        };
        if let Some(v) = di.get_mut::<Vec<String>>() {
            v.push(label.to_string());
        }
    }
}

#[test]
fn prerender_runs_before_render_in_app_render_method() {
    let mut app: App<TestSystem> = App::new();

    // Insert a Vec to track execution order
    app.get_di_container().insert(Vec::<String>::new());

    // Register systems in PreRender and Render stages
    app.add_system(Stage::PreRender, Priority::Normal.index(), TestSystem::PrerenderSystem);
    app.add_system(Stage::Render, Priority::Normal.index(), TestSystem::RenderSystem);

    // Call render which should execute PreRender then Render
    app.render();

    // Verify execution order
    let execution_order = app.get_di_container().get::<Vec<String>>().unwrap();
    assert_eq!(execution_order.len(), 2);
    assert_eq!(execution_order[0], "PreRender");
    assert_eq!(execution_order[1], "Render");
}
