use vlm::cli::Vlmcli;
use vlm::tasks::DefaultVLMGenericTaskExecutor;
use vlm::tasks::DefaultVLMTaskExecutor;
use vlm::tasks::VLMGenericTaskExecutor;
use vlm::tasks::VLMTaskExecutor;

struct Worker;

impl DefaultVLMTaskExecutor for Worker {}

impl DefaultVLMGenericTaskExecutor for Worker {}

#[test]
fn simple_task_succeeds() {
    assert_eq!(Vlmcli.execute_simple_task_default(), Ok(()));
    assert_eq!(Vlmcli.execute_simple_task(), Ok(()));
    assert_eq!(Worker.execute_simple_task(), Ok(()));
}

#[test]
fn task_is_run_once_and_its_result_handed_back() {
    let mut runs = 0;
    let outcome = Vlmcli.execute_task_default(|| {
        runs += 1;
        6 * 7
    });
    assert_eq!(outcome, Ok(42));
    assert_eq!(runs, 1);
    assert_eq!(Vlmcli.execute_task(|| "done".to_string()), Ok("done".to_string()));
    assert_eq!(Worker.execute_task(|| vec![1, 2, 3]), Ok(vec![1, 2, 3]));
}

struct Idle;

impl DefaultVLMTaskExecutor for Idle {
    fn execute_simple_task_default(&self) -> Result<(), String> {
        Err("idle".to_string())
    }
}

impl DefaultVLMGenericTaskExecutor for Idle {
    fn runs_every_task(&self) -> bool {
        false
    }

    fn execute_task_default<F, T>(&self, _task: F) -> Result<T, String>
    where
        F: FnOnce() -> T,
    {
        Err("idle".to_string())
    }
}

#[test]
fn an_executor_that_says_otherwise_may_fail() {
    assert_eq!(Idle.execute_simple_task(), Err("idle".to_string()));
    assert_eq!(Idle.execute_task(|| 1), Err("idle".to_string()));
}
